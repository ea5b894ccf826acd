use vstd::prelude::*;

use super::machine::MachineState;
use super::memory::MEMORY_SIZE;
use super::register::PC_REG;
use super::vm::VM;

verus! {

/// The word whose big-endian bytes are `hi` then `lo`.
pub open spec fn be_word(hi: u8, lo: u8) -> u16 {
    (hi as int * 256 + lo as int) as u16
}

/// The load origin of a program image: its first big-endian word.
pub open spec fn image_origin(bytes: Seq<u8>) -> u16 {
    be_word(bytes[0], bytes[1])
}

/// The words of a program image after its origin; a trailing odd byte is
/// not a word.
pub open spec fn image_words(bytes: Seq<u8>) -> Seq<u16> {
    Seq::new(
        ((bytes.len() - 2) / 2) as nat,
        |k: int| be_word(bytes[2 + 2 * k], bytes[3 + 2 * k]),
    )
}

/// `s` with `words` stored from `origin` on and the PC at `origin`.
pub open spec fn loaded(s: MachineState, origin: u16, words: Seq<u16>) -> MachineState {
    MachineState {
        regs: s.regs.update(PC_REG as int, origin),
        mem: Seq::new(
            s.mem.len(),
            |a: int|
                if origin <= a < origin + words.len() {
                    words[a - origin]
                } else {
                    s.mem[a]
                },
        ),
        halted: s.halted,
    }
}

/// Why a program image cannot be loaded.
#[derive(PartialEq, Eq, Structural, Clone, Copy, Debug)]
pub enum ImageError {
    /// The image is shorter than its origin word.
    MissingOrigin,
    /// The words do not fit between the origin and the top of memory.
    TooLarge,
}

/// Relies on byteorder's `BigEndian::read_u16`: the big-endian `u16` of
/// the two bytes at `at`.
#[verifier::external_body]
fn read_be_u16(bytes: &[u8], at: usize) -> (r: u16)
    requires
        at + 2 <= bytes@.len(),
    ensures
        r == be_word(bytes@[at as int], bytes@[at + 1]),
{
    <byteorder::BigEndian as byteorder::ByteOrder>::read_u16(&bytes[at..])
}

impl VM {
    /// Loads a program image: a big-endian origin word, then words stored
    /// at consecutive addresses from the origin on. The PC is set to the
    /// origin. On an error nothing changes.
    pub fn load_image(&mut self, bytes: &[u8]) -> (r: Result<(), ImageError>)
        ensures
            bytes@.len() < 2 ==> r == Err::<(), ImageError>(ImageError::MissingOrigin),
            bytes@.len() >= 2 && image_origin(bytes@) + image_words(bytes@).len() > MEMORY_SIZE
                ==> r == Err::<(), ImageError>(ImageError::TooLarge),
            bytes@.len() >= 2 && image_origin(bytes@) + image_words(bytes@).len() <= MEMORY_SIZE
                ==> r == Ok::<(), ImageError>(()),
            r is Ok ==> final(self)@ == loaded(old(self)@, image_origin(bytes@), image_words(bytes@)),
            r is Err ==> final(self)@ == old(self)@,
    {
        if bytes.len() < 2 {
            return Err(ImageError::MissingOrigin);
        }
        let origin: u16 = read_be_u16(bytes, 0);
        let n: usize = (bytes.len() - 2) / 2;
        let ghost words = image_words(bytes@);
        let size: usize = self.memory.len();
        if origin as usize + n > size {
            return Err(ImageError::TooLarge);
        }
        assert(2 * n + 2 <= bytes@.len()) by (nonlinear_arith)
            requires
                n == (bytes@.len() - 2) / 2,
                bytes@.len() >= 2,
        ;
        let ghost s0 = self@;
        let mut k: usize = 0;
        while k < n
            invariant
                n == words.len(),
                2 * n + 2 <= bytes@.len(),
                words == image_words(bytes@),
                origin as int + n <= MEMORY_SIZE,
                k <= n,
                self@.mem.len() == MEMORY_SIZE,
                s0.mem.len() == MEMORY_SIZE,
                self@.regs == s0.regs,
                self@.halted == s0.halted,
                forall|a: int|
                    0 <= a < MEMORY_SIZE ==> #[trigger] self@.mem[a] == if origin <= a < origin
                        + k {
                        words[a - origin]
                    } else {
                        s0.mem[a]
                    },
            decreases n - k,
        {
            let w: u16 = read_be_u16(bytes, 2 + 2 * k);
            self.memory.write((origin as usize + k) as u16, w);
            k = k + 1;
        }
        self.registers.update_register(PC_REG, origin);
        assert(self@.mem =~= loaded(s0, origin, words).mem);
        Ok(())
    }
}

} // verus!
