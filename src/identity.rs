//! Naming rules for a device identifier, before it becomes a certificate's
//! Common Name.
use vstd::prelude::*;
use vstd::string::StrSliceExecFns;

verus! {

/// Why a device identifier was refused.
#[derive(Debug, Clone, Copy, PartialEq, Eq, Structural)]
pub enum DeviceIdError {
    /// The identifier holds no character.
    EmptyName,
    /// The identifier holds more characters than the configured maximum.
    TooLongName,
}

/// An identifier is valid when it holds at least one and at most `max_len`
/// characters.
pub open spec fn valid_device_id(id: Seq<char>, max_len: nat) -> bool {
    0 < id.len() && id.len() <= max_len
}

/// What the validation of `id` against `max_len` gives.
pub open spec fn device_id_check(id: Seq<char>, max_len: nat) -> Result<(), DeviceIdError> {
    if id.len() == 0 {
        Err(DeviceIdError::EmptyName)
    } else if id.len() > max_len {
        Err(DeviceIdError::TooLongName)
    } else {
        Ok(())
    }
}

/// Checks a device identifier against the naming rules: not empty, and no
/// more than `max_len` characters. No character set is imposed here.
pub fn is_valid_device_id(id: &str, max_len: usize) -> (r: Result<(), DeviceIdError>)
    ensures
        r == device_id_check(id@, max_len as nat),
        r is Ok <==> valid_device_id(id@, max_len as nat),
{
    let n = id.unicode_len();
    if n == 0 {
        Err(DeviceIdError::EmptyName)
    } else if n > max_len {
        Err(DeviceIdError::TooLongName)
    } else {
        Ok(())
    }
}

/// An identifier longer than the maximum is refused as too long, whatever
/// certificate or signing request it was meant for.
pub proof fn lemma_too_long_identifier_is_refused(id: Seq<char>, max_len: nat)
    requires
        id.len() > max_len,
    ensures
        !valid_device_id(id, max_len),
        device_id_check(id, max_len) == Err::<(), DeviceIdError>(DeviceIdError::TooLongName),
{
}

} // verus!
