use vstd::prelude::*;

verus! {

/// Why an iNES image was refused (the errors that do not come from I/O).
#[derive(Clone, Copy, Debug)]
pub enum Error {
    /// The buffer is shorter than the 16-byte header.
    TooShort { actual: usize },
    /// The magic number ("NES<EOF>") is missing.
    InvalidMagic,
    /// A ROM section (trainer, PRG, CHR, ...) is shorter than the header says.
    SectionTooShort { section: &'static str, expected: usize, actual: usize },
}

} // verus!
