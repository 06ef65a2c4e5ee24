use vstd::prelude::*;

verus! {

/// All errors produced by aeszippy.
#[derive(Debug)]
pub enum AeszippyError {
    /// The ciphertext length is not a multiple of the AES block size (16 bytes).
    InvalidCiphertextLength(usize),
    /// The properties blob is shorter than its own header says it must be.
    InvalidProperties(usize),
    /// The NumCyclesPower value was out of range (valid range 0..=24).
    InvalidNumCyclesPower(u8),
    /// AES-CBC unpadding failed (wrong password or corrupt data).
    DecryptError(String),
    /// Wrapped IO error (the system random number generator failed).
    Io(std::io::Error),
}

impl AeszippyError {
    /// Construct a decrypt error from any `Display` value: the error carries
    /// the value's `to_string()` text.
    pub fn decrypt<T: core::fmt::Display>(msg: T) -> (e: Self)
        ensures
            e matches AeszippyError::DecryptError(text)
                && vstd::string::to_string_from_display_ensures::<T>(&msg, text),
    {
        AeszippyError::DecryptError(msg.to_string())
    }
}

/// An IO error converts into [`AeszippyError::Io`] (so `?` lifts it).
impl From<std::io::Error> for AeszippyError {
    fn from(err: std::io::Error) -> (e: Self) {
        AeszippyError::Io(err)
    }
}

impl vstd::std_specs::convert::FromSpecImpl<std::io::Error> for AeszippyError {
    open spec fn obeys_from_spec() -> bool {
        true
    }

    open spec fn from_spec(err: std::io::Error) -> AeszippyError {
        AeszippyError::Io(err)
    }
}

/// Convenience alias used throughout aeszippy.
pub type AeszippyResult<T> = Result<T, AeszippyError>;

} // verus!
