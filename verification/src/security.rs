//! The app lock as the application uses it: the PIN is checked against the
//! keystore first and against the hash kept with the settings second.

use vstd::prelude::*;
use vstd::string::*;
use crate::auth::{
    bcrypt_check, pin_verdict, set_pin, valid_pin, verify_pin, LockConfig, LockSettings, PinError,
    StoredPin,
};

verus! {

/// Whether a PIN opens the lock: the keystore says so, or it matches the hash
/// kept with the settings.
pub open spec fn pin_opens(pin: Seq<char>, stored: StoredPin, settings: LockConfig) -> bool {
    pin_verdict(pin, stored) == Ok::<bool, PinError<Seq<char>>>(true) || (settings.pin_hash
        matches Some(hash) && bcrypt_check(pin, hash) == Some(true))
}

/// Checks a PIN against the keystore and the settings.
pub fn verify_lock_pin(pin: &str, stored: &StoredPin, settings: &LockSettings) -> (r: bool)
    ensures
        r == pin_opens(pin@, *stored, settings@),
{
    match verify_pin(pin, stored) {
        Ok(true) => true,
        _ => match &settings.pin_hash {
            Some(hash) => {
                let kept = StoredPin::Found(hash.clone());
                match verify_pin(pin, &kept) {
                    Ok(matches) => matches,
                    Err(_) => false,
                }
            },
            None => false,
        },
    }
}

/// The settings with the lock switched on and `hash` as the PIN's hash.
pub open spec fn locked_with(settings: LockConfig, hash: Seq<char>) -> LockConfig {
    LockConfig { is_enabled: true, pin_hash: Some(hash), ..settings }
}

/// What setting a PIN may give: nothing but the refusal for a text that is no
/// PIN; for a PIN the settings `after`, which are those that `change` makes of
/// the old ones and a hash that bcrypt accepts for the PIN, or bcrypt's own
/// failure.
pub open spec fn pin_kept(
    pin: Seq<char>,
    r: Result<LockSettings, PinError<String>>,
    change: spec_fn(Seq<char>) -> LockConfig,
) -> bool {
    match r {
        Ok(after) => {
            &&& valid_pin(pin)
            &&& after@.pin_hash matches Some(hash)
            &&& bcrypt_check(pin, hash) == Some(true)
            &&& after@ == change(hash)
        },
        Err(e) => if valid_pin(pin) {
            e is Hashing
        } else {
            e is NotAPin
        },
    }
}

/// Sets the PIN: a text that is no PIN is refused; else the lock is switched
/// on and the hash of the PIN kept with the settings.
pub fn set_lock_pin(pin: &str, settings: LockSettings) -> (r: Result<
    LockSettings,
    PinError<String>,
>)
    ensures
        pin_kept(pin@, r, |hash: Seq<char>| locked_with(settings@, hash)),
{
    match set_pin(pin) {
        Err(e) => Err(e),
        Ok(hash) => Ok(
            LockSettings {
                is_enabled: true,
                use_biometric: settings.use_biometric,
                auto_lock_timeout: settings.auto_lock_timeout,
                lock_on_background: settings.lock_on_background,
                pin_hash: Some(hash),
            },
        ),
    }
}

/// Removes the PIN: the lock is switched off and no hash is kept.
pub fn remove_lock_pin(settings: LockSettings) -> (s: LockSettings)
    ensures
        s@ == (LockConfig { is_enabled: false, pin_hash: None, ..settings@ }),
{
    LockSettings {
        is_enabled: false,
        use_biometric: settings.use_biometric,
        auto_lock_timeout: settings.auto_lock_timeout,
        lock_on_background: settings.lock_on_background,
        pin_hash: None,
    }
}

/// Changes the PIN: the old one must open the lock and the new one be a PIN;
/// then the hash of the new one is kept with the settings.
pub fn change_lock_pin(
    old_pin: &str,
    new_pin: &str,
    stored: &StoredPin,
    settings: LockSettings,
) -> (r: Result<LockSettings, PinError<String>>)
    ensures
        if pin_opens(old_pin@, *stored, settings@) {
            pin_kept(
                new_pin@,
                r,
                |hash: Seq<char>| (LockConfig { pin_hash: Some(hash), ..settings@ }),
            )
        } else {
            r is Err && r->Err_0@ == PinError::<Seq<char>>::WrongPin
        },
{
    if !verify_lock_pin(old_pin, stored, &settings) {
        return Err(PinError::WrongPin);
    }
    match set_pin(new_pin) {
        Err(e) => Err(e),
        Ok(hash) => Ok(
            LockSettings {
                is_enabled: settings.is_enabled,
                use_biometric: settings.use_biometric,
                auto_lock_timeout: settings.auto_lock_timeout,
                lock_on_background: settings.lock_on_background,
                pin_hash: Some(hash),
            },
        ),
    }
}

/// Whether the app is locked: the lock is switched on and a PIN is kept, in
/// the keystore or with the settings. A keystore that fails counts as empty.
pub fn is_lock_enabled(settings: &LockSettings, stored: &StoredPin) -> (r: bool)
    ensures
        r == (settings@.is_enabled && (*stored is Found || settings@.pin_hash is Some)),
{
    if !settings.is_enabled {
        return false;
    }
    let in_keystore = match stored {
        StoredPin::Found(_) => true,
        _ => false,
    };
    in_keystore || settings.pin_hash.is_some()
}

/// The settings as shown to the user: without the hash of the PIN.
pub fn get_lock_settings(settings: LockSettings) -> (s: LockSettings)
    ensures
        s@ == (LockConfig { pin_hash: None, ..settings@ }),
{
    LockSettings {
        is_enabled: settings.is_enabled,
        use_biometric: settings.use_biometric,
        auto_lock_timeout: settings.auto_lock_timeout,
        lock_on_background: settings.lock_on_background,
        pin_hash: None,
    }
}

/// Takes over what the user may change: the use of biometrics, the timeout
/// and the lock on leaving the app. Whether the lock is on, and the hash of
/// the PIN, stay as they are.
pub fn update_lock_settings(existing: LockSettings, wanted: &LockSettings) -> (s: LockSettings)
    ensures
        s@ == (LockConfig {
            use_biometric: wanted@.use_biometric,
            auto_lock_timeout: wanted@.auto_lock_timeout,
            lock_on_background: wanted@.lock_on_background,
            ..existing@
        }),
{
    LockSettings {
        is_enabled: existing.is_enabled,
        use_biometric: wanted.use_biometric,
        auto_lock_timeout: wanted.auto_lock_timeout,
        lock_on_background: wanted.lock_on_background,
        pin_hash: existing.pin_hash,
    }
}

/// The name of the biometrics the device offers, from the number the
/// platform gives them: two is by face, one by touch, and anything else, or
/// biometrics that are not available, none.
pub open spec fn biometric_name(available: bool, biometry: u8) -> Seq<char> {
    if available && biometry == 2 {
        "face_id"@
    } else if available && biometry == 1 {
        "touch_id"@
    } else {
        "none"@
    }
}

/// Names the biometrics the device offers.
pub fn get_biometric_type(available: bool, biometry: u8) -> (name: String)
    ensures
        name@ == biometric_name(available, biometry),
{
    if !available {
        String::from_str("none")
    } else if biometry == 2 {
        String::from_str("face_id")
    } else if biometry == 1 {
        String::from_str("touch_id")
    } else {
        String::from_str("none")
    }
}

} // verus!
