use vstd::prelude::*;

verus! {

/// The whole byte-addressable address space, every byte starting at zero.
///
/// The map is handed to its users (the CPU and, in a full system, the
/// peripherals) as an explicit `&mut` for the duration of each access, so a
/// single instance is shared without aliasing.
#[derive(Debug)]
pub struct MemoryMap {
    mem: Vec<u8>,
}

impl View for MemoryMap {
    type V = Seq<u8>;

    closed spec fn view(&self) -> Seq<u8> {
        self.mem@
    }
}

impl MemoryMap {
    /// A map of `memory_size` bytes, all zero.
    pub fn new(memory_size: usize) -> (r: MemoryMap)
        ensures
            r@ == Seq::new(memory_size as nat, |_i: int| 0u8),
    {
        let mut mem: Vec<u8> = Vec::new();
        let mut i: usize = 0;
        while i < memory_size
            invariant
                i <= memory_size,
                mem@ == Seq::new(i as nat, |_i: int| 0u8),
            decreases memory_size - i,
        {
            mem.push(0u8);
            i = i + 1;
            assert(mem@ =~= Seq::new(i as nat, |_i: int| 0u8));
        }
        MemoryMap { mem }
    }

    /// The size of a map is a `usize`.
    pub proof fn lemma_size_fits(&self)
        ensures
            self@.len() <= usize::MAX,
    {
        assert(self.mem.len() == self.mem@.len());
    }

    /// Number of addressable bytes.
    pub fn size(&self) -> (r: usize)
        ensures
            r == self@.len(),
    {
        self.mem.len()
    }

    /// Stores `value` at `location`, replacing what was there.
    pub fn write(&mut self, location: usize, value: u8)
        requires
            location < old(self)@.len(),
        ensures
            final(self)@ == old(self)@.update(location as int, value),
    {
        self.mem.set(location, value);
    }

    /// The byte at `location`.
    pub fn read(&self, location: usize) -> (r: u8)
        requires
            location < self@.len(),
        ensures
            r == self@[location as int],
    {
        self.mem[location]
    }
}

} // verus!
