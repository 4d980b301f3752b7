use vstd::prelude::*;
use crate::cpu::cpu::LoadError;

verus! {

/// Size of the flat memory: addresses $0000-$FFFE.
pub const MEMORY_SIZE: usize = 0xFFFF;
/// Where `load` places a program.
pub const PROGRAM_START: u16 = 0x8000;

/// A flat 64 KiB-less-one memory without mirroring or devices.
pub struct Memory {
    pub data: Vec<u8>,
}

/// `data` with `prog` placed at $8000 and then the reset vector at $FFFC set to $8000.
pub open spec fn loaded(data: Seq<u8>, prog: Seq<u8>) -> Seq<u8> {
    let placed = Seq::new(
        data.len(),
        |i: int|
            if PROGRAM_START <= i < PROGRAM_START + prog.len() {
                prog[i - PROGRAM_START]
            } else {
                data[i]
            },
    );
    placed.update(0xFFFC, 0x00).update(0xFFFD, 0x80)
}

impl Memory {
    pub open spec fn wf(&self) -> bool {
        self.data@.len() == MEMORY_SIZE
    }

    /// Zeroed memory.
    pub fn new() -> (r: Self)
        ensures
            r.wf(),
            r.data@ == Seq::new(MEMORY_SIZE as nat, |i: int| 0u8),
    {
        let data = vec![0u8; MEMORY_SIZE];
        assert(data@ =~= Seq::new(MEMORY_SIZE as nat, |i: int| 0u8));
        Memory { data }
    }

    /// Copies a program to $8000 and points the reset vector at it; refuses a program
    /// longer than the space from $8000 up.
    pub fn load(&mut self, prog: Vec<u8>) -> (r: Result<(), LoadError>)
        requires
            old(self).wf(),
        ensures
            final(self).wf(),
            r is Ok <==> prog@.len() <= MEMORY_SIZE - PROGRAM_START,
            r is Ok ==> final(self).data@ == loaded(old(self).data@, prog@),
            r is Err ==> final(self).data@ == old(self).data@,
    {
        let start = PROGRAM_START as usize;
        if prog.len() > MEMORY_SIZE - start {
            return Err(LoadError::ProgramTooLarge);
        }
        let mut i: usize = 0;
        while i < prog.len()
            invariant
                self.wf(),
                prog@.len() <= MEMORY_SIZE - PROGRAM_START,
                start == PROGRAM_START,
                i <= prog@.len(),
                forall|j: int|
                    0 <= j < MEMORY_SIZE ==> #[trigger] self.data@[j] == if start <= j < start + i {
                        prog@[j - start]
                    } else {
                        old(self).data@[j]
                    },
            decreases prog@.len() - i,
        {
            self.data.set(start + i, prog[i]);
            i = i + 1;
        }
        self.write_u16(0xFFFC, PROGRAM_START);
        assert(self.data@ =~= loaded(old(self).data@, prog@));
        Ok(())
    }

    /// The byte at an address.
    pub fn read(&self, address: u16) -> (r: u8)
        requires
            self.wf(),
            address < MEMORY_SIZE,
        ensures
            r == self.data@[address as int],
    {
        self.data[address as usize]
    }

    /// Stores a byte.
    pub fn write(&mut self, address: u16, val: u8)
        requires
            old(self).wf(),
            address < MEMORY_SIZE,
        ensures
            final(self).wf(),
            final(self).data@ == old(self).data@.update(address as int, val),
    {
        self.data.set(address as usize, val);
    }

    /// The little-endian word at an address.
    pub fn read_u16(&mut self, address: u16) -> (r: u16)
        requires
            old(self).wf(),
            address + 1 < MEMORY_SIZE,
        ensures
            *final(self) == *old(self),
            r == old(self).data@[address + 1] as int * 256 + old(self).data@[address as int],
    {
        let low = self.read(address);
        let high = self.read(address + 1);
        high as u16 * 256 + low as u16
    }

    /// Stores a little-endian word.
    pub fn write_u16(&mut self, address: u16, val: u16)
        requires
            old(self).wf(),
            address + 1 < MEMORY_SIZE,
        ensures
            final(self).wf(),
            final(self).data@ == old(self).data@.update(address as int, (val % 256) as u8).update(
                address + 1,
                (val / 256) as u8,
            ),
    {
        self.write(address, (val % 256) as u8);
        self.write(address + 1, (val / 256) as u8);
    }
}

} // verus!
