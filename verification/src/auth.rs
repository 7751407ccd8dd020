//! The app lock: what counts as a PIN, how a PIN is checked against its hash,
//! and the settings kept with it. The caller reads and writes the keystore.

use vstd::prelude::*;
use vstd::string::*;
use crate::text::text_of;

verus! {

/// The settings of the app lock.
#[derive(Debug, Clone, PartialEq, Eq)]
pub struct LockSettings {
    pub is_enabled: bool,
    pub use_biometric: bool,
    /// Minutes of inactivity before the app locks; 0 locks at once.
    pub auto_lock_timeout: u32,
    pub lock_on_background: bool,
    /// The PIN's hash, kept here for platforms without a keystore.
    pub pin_hash: Option<String>,
}

/// `LockSettings` as a mathematical value.
pub struct LockConfig {
    pub is_enabled: bool,
    pub use_biometric: bool,
    pub auto_lock_timeout: u32,
    pub lock_on_background: bool,
    pub pin_hash: Option<Seq<char>>,
}

impl View for LockSettings {
    type V = LockConfig;

    open spec fn view(&self) -> LockConfig {
        LockConfig {
            is_enabled: self.is_enabled,
            use_biometric: self.use_biometric,
            auto_lock_timeout: self.auto_lock_timeout,
            lock_on_background: self.lock_on_background,
            pin_hash: text_of(self.pin_hash),
        }
    }
}

/// The settings of an app that was never locked.
pub open spec fn default_lock() -> LockConfig {
    LockConfig {
        is_enabled: false,
        use_biometric: false,
        auto_lock_timeout: 5,
        lock_on_background: true,
        pin_hash: None,
    }
}

impl Default for LockSettings {
    fn default() -> (s: LockSettings)
        ensures
            s@ == default_lock(),
    {
        LockSettings {
            is_enabled: false,
            use_biometric: false,
            auto_lock_timeout: 5,
            lock_on_background: true,
            pin_hash: None,
        }
    }
}

/// What reading the PIN's entry in the keystore gave.
#[derive(Debug, PartialEq, Eq)]
pub enum StoredPin {
    /// The hash kept there.
    Found(String),
    /// There is no entry.
    NoEntry,
    /// The keystore failed; the text says why.
    Failed(String),
}

/// What deleting the PIN's entry in the keystore gave.
#[derive(Debug, PartialEq, Eq)]
pub enum Removal {
    Removed,
    /// There was no entry.
    NoEntry,
    /// The keystore failed; the text says why.
    Failed(String),
}

/// Whether a character is one of `0` to `9`.
pub open spec fn is_digit(c: char) -> bool {
    '0' <= c && c <= '9'
}

/// Whether a text is a PIN: four to six digits.
pub open spec fn valid_pin(pin: Seq<char>) -> bool {
    4 <= pin.len() <= 6 && forall|i: int| 0 <= i < pin.len() ==> is_digit(#[trigger] pin[i])
}

/// What bcrypt's `verify` says of a password and a hash: whether they match,
/// or `None` where it rejects the hash.
pub uninterp spec fn bcrypt_check(pin: Seq<char>, hash: Seq<char>) -> Option<bool>;

/// Calls `bcrypt::verify`. The result is only named.
#[verifier::external_body]
fn bcrypt_verify(pin: &str, hash: &str) -> (r: Option<bool>)
    ensures
        r == bcrypt_check(pin@, hash@),
{
    match bcrypt::verify(pin, hash) {
        Ok(same) => Some(same),
        Err(_) => None,
    }
}

/// Calls `bcrypt::hash` with bcrypt's default cost. The salt is random, so
/// the hash is not named: all that is claimed is that `bcrypt::verify`
/// accepts the password against it, which recomputes the hash from the cost
/// and salt written in it. A failure is handed on as its message.
#[verifier::external_body]
fn bcrypt_hash(pin: &str) -> (r: Result<String, String>)
    ensures
        r matches Ok(hash) ==> bcrypt_check(pin@, hash@) == Some(true),
{
    match bcrypt::hash(pin, bcrypt::DEFAULT_COST) {
        Ok(hash) => Ok(hash),
        Err(e) => Err(e.to_string()),
    }
}

/// Whether `pin` is four to six digits.
pub fn is_valid_pin(pin: &str) -> (r: bool)
    ensures
        r == valid_pin(pin@),
{
    let n = pin.unicode_len();
    if n < 4 || n > 6 {
        return false;
    }
    let mut i: usize = 0;
    while i < n
        invariant
            n == pin@.len(),
            i <= n,
            forall|k: int| 0 <= k < i ==> is_digit(#[trigger] pin@[k]),
        decreases n - i,
    {
        let c = pin.get_char(i);
        if !('0' <= c && c <= '9') {
            return false;
        }
        i = i + 1;
    }
    true
}

/// Why an operation on the PIN failed. `T` is the type of text.
#[derive(Debug, Clone, PartialEq, Eq)]
pub enum PinError<T> {
    /// The text offered as a PIN is not four to six digits.
    NotAPin,
    /// The PIN offered as the current one is not the current one.
    WrongPin,
    /// bcrypt could not hash the PIN, for the reason it gives.
    Hashing(T),
    /// The keystore failed, for the reason it gives.
    Keystore(T),
}

impl View for PinError<String> {
    type V = PinError<Seq<char>>;

    open spec fn view(&self) -> PinError<Seq<char>> {
        match *self {
            PinError::NotAPin => PinError::NotAPin,
            PinError::WrongPin => PinError::WrongPin,
            PinError::Hashing(why) => PinError::Hashing(why@),
            PinError::Keystore(why) => PinError::Keystore(why@),
        }
    }
}

/// The text that refuses a PIN of the wrong form.
pub open spec fn bad_pin() -> Seq<char> {
    "PIN must be 4-6 digits"@
}

/// The text that refuses a change of PIN by someone who does not know the old one.
pub open spec fn wrong_pin() -> Seq<char> {
    "Current PIN is incorrect"@
}

/// What the user is told of a failure.
pub open spec fn pin_error_text(e: PinError<Seq<char>>) -> Seq<char> {
    match e {
        PinError::NotAPin => bad_pin(),
        PinError::WrongPin => wrong_pin(),
        PinError::Hashing(why) => why,
        PinError::Keystore(why) => why,
    }
}

impl PinError<String> {
    /// The message, as the user sees it.
    pub fn to_string(&self) -> (s: String)
        ensures
            s@ == pin_error_text(self@),
    {
        match self {
            PinError::NotAPin => String::from_str("PIN must be 4-6 digits"),
            PinError::WrongPin => String::from_str("Current PIN is incorrect"),
            PinError::Hashing(why) => why.clone(),
            PinError::Keystore(why) => why.clone(),
        }
    }
}

/// Whether a check by bcrypt counts as a match: a hash it rejects matches nothing.
pub fn pin_matches(checked: Option<bool>) -> (r: bool)
    ensures
        r == (checked == Some(true)),
{
    match checked {
        Some(same) => same,
        None => false,
    }
}

/// What hashing a PIN may give: nothing but the refusal for a text that is no
/// PIN; for a PIN a hash that bcrypt accepts for it, or bcrypt's own failure.
pub open spec fn hashed_pin(pin: Seq<char>, r: Result<String, PinError<String>>) -> bool {
    match r {
        Ok(hash) => valid_pin(pin) && bcrypt_check(pin, hash@) == Some(true),
        Err(e) => if valid_pin(pin) {
            e is Hashing
        } else {
            e is NotAPin
        },
    }
}

/// Settles what hashing a PIN gives, from whether the text is a PIN and what
/// bcrypt made of it.
pub fn pin_hash_result(valid: bool, hashed: Result<String, String>) -> (r: Result<
    String,
    PinError<String>,
>)
    ensures
        match r {
            Ok(hash) => valid && hashed == Ok::<String, String>(hash),
            Err(e) => if valid {
                hashed is Err && e@ == PinError::Hashing(hashed->Err_0@)
            } else {
                e@ == PinError::<Seq<char>>::NotAPin
            },
        },
        valid && hashed is Ok ==> r is Ok,
{
    if !valid {
        return Err(PinError::NotAPin);
    }
    match hashed {
        Ok(hash) => Ok(hash),
        Err(why) => Err(PinError::Hashing(why)),
    }
}

/// Hashes a new PIN for the keystore. A text that is no PIN is refused; else
/// the result is the hash, or bcrypt's failure.
pub fn set_pin(pin: &str) -> (r: Result<String, PinError<String>>)
    ensures
        hashed_pin(pin@, r),
{
    if !is_valid_pin(pin) {
        return Err(PinError::NotAPin);
    }
    pin_hash_result(true, bcrypt_hash(pin))
}

/// What checking a PIN against the keystore gives.
pub open spec fn pin_verdict(pin: Seq<char>, stored: StoredPin) -> Result<
    bool,
    PinError<Seq<char>>,
> {
    match stored {
        StoredPin::Found(hash) => Ok(bcrypt_check(pin, hash@) == Some(true)),
        StoredPin::NoEntry => Ok(false),
        StoredPin::Failed(why) => Err(PinError::Keystore(why@)),
    }
}

/// What a verdict stands for.
pub open spec fn verdict_view(r: Result<bool, PinError<String>>) -> Result<
    bool,
    PinError<Seq<char>>,
> {
    match r {
        Ok(b) => Ok(b),
        Err(e) => Err(e@),
    }
}

/// Checks a PIN against what the keystore holds. Without an entry no PIN is right.
pub fn verify_pin(pin: &str, stored: &StoredPin) -> (r: Result<bool, PinError<String>>)
    ensures
        verdict_view(r) == pin_verdict(pin@, *stored),
{
    match stored {
        StoredPin::Found(hash) => Ok(pin_matches(bcrypt_verify(pin, hash.as_str()))),
        StoredPin::NoEntry => Ok(false),
        StoredPin::Failed(why) => Err(PinError::Keystore(why.clone())),
    }
}

/// Whether removing the PIN succeeded: a PIN that was not there counts as removed.
pub fn remove_pin(removal: Removal) -> (r: Result<(), PinError<String>>)
    ensures
        match removal {
            Removal::Failed(why) => r is Err && r->Err_0@ == PinError::Keystore(why@),
            _ => r is Ok,
        },
{
    match removal {
        Removal::Removed => Ok(()),
        Removal::NoEntry => Ok(()),
        Removal::Failed(why) => Err(PinError::Keystore(why)),
    }
}

/// Changes the PIN: the old one must match what the keystore holds, then the
/// new one is hashed as `set_pin` does.
pub fn change_pin(old_pin: &str, new_pin: &str, stored: &StoredPin) -> (r: Result<
    String,
    PinError<String>,
>)
    ensures
        match pin_verdict(old_pin@, *stored) {
            Err(e) => r is Err && r->Err_0@ == e,
            Ok(false) => r is Err && r->Err_0@ == PinError::<Seq<char>>::WrongPin,
            Ok(true) => hashed_pin(new_pin@, r),
        },
{
    match verify_pin(old_pin, stored) {
        Err(e) => Err(e),
        Ok(false) => Err(PinError::WrongPin),
        Ok(true) => set_pin(new_pin),
    }
}

/// Whether a PIN is set in the keystore.
pub fn is_lock_enabled(stored: &StoredPin) -> (r: Result<bool, PinError<String>>)
    ensures
        match *stored {
            StoredPin::Found(_) => r == Ok::<bool, PinError<String>>(true),
            StoredPin::NoEntry => r == Ok::<bool, PinError<String>>(false),
            StoredPin::Failed(why) => r is Err && r->Err_0@ == PinError::Keystore(why@),
        },
{
    match stored {
        StoredPin::Found(_) => Ok(true),
        StoredPin::NoEntry => Ok(false),
        StoredPin::Failed(why) => Err(PinError::Keystore(why.clone())),
    }
}

/// The settings to work with, given what was stored: the defaults if nothing was.
pub fn get_settings(stored: Option<LockSettings>) -> (s: LockSettings)
    ensures
        s@ == match stored {
            Some(found) => found@,
            None => default_lock(),
        },
{
    match stored {
        Some(found) => found,
        None => LockSettings::default(),
    }
}

/// Whether the device can check a fingerprint or a face. Not yet, anywhere.
pub fn is_biometric_available() -> (r: bool)
    ensures
        !r,
{
    false
}

/// Asks for a fingerprint or a face. Not implemented, so always refused.
pub fn authenticate_biometric() -> (r: Result<bool, String>)
    ensures
        r is Err,
        r->Err_0@ == "Biometric authentication is not yet implemented"@,
{
    Err(String::from_str("Biometric authentication is not yet implemented"))
}

} // verus!
