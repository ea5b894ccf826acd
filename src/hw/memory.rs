use vstd::prelude::*;

verus! {

/// Number of words in the address space.
pub const MEMORY_SIZE: usize = 65536;

/// The flat word-addressed memory shared by code and data.
pub struct Memory {
    cells: Vec<u16>,
}

impl View for Memory {
    type V = Seq<u16>;

    closed spec fn view(&self) -> Seq<u16> {
        self.cells@
    }
}

impl Memory {
    #[verifier::type_invariant]
    spec fn inv(self) -> bool {
        self.cells@.len() == MEMORY_SIZE as nat
    }

    /// A memory of `MEMORY_SIZE` zero words.
    pub fn new() -> (r: Self)
        ensures
            r@ == Seq::new(MEMORY_SIZE as nat, |a: int| 0u16),
    {
        let mut cells: Vec<u16> = Vec::new();
        let mut a: usize = 0;
        while a < MEMORY_SIZE
            invariant
                a <= MEMORY_SIZE,
                cells@.len() == a as nat,
                forall|i: int| 0 <= i < a ==> cells@[i] == 0,
            decreases MEMORY_SIZE - a,
        {
            cells.push(0);
            a = a + 1;
        }
        assert(cells@ =~= Seq::new(MEMORY_SIZE as nat, |a: int| 0u16));
        Memory { cells }
    }

    /// The word at `addr`.
    pub fn read(&self, addr: u16) -> (r: u16)
        ensures
            r == self@[addr as int],
            self@.len() == MEMORY_SIZE as nat,
    {
        proof {
            use_type_invariant(self);
        }
        self.cells[addr as usize]
    }

    /// Overwrites the word at `addr`.
    pub fn write(&mut self, addr: u16, value: u16)
        ensures
            final(self)@ == old(self)@.update(addr as int, value),
            final(self)@.len() == MEMORY_SIZE as nat,
    {
        proof {
            use_type_invariant(&*self);
        }
        self.cells[addr as usize] = value;
    }

    /// The number of words, always `MEMORY_SIZE`.
    pub fn len(&self) -> (r: usize)
        ensures
            r == self@.len(),
            r == MEMORY_SIZE,
    {
        proof {
            use_type_invariant(self);
        }
        self.cells.len()
    }
}

} // verus!
