//! How passwords are kept and checked.
use vstd::prelude::*;
use vstd::string::*;
use vstd::utf8::*;

verus! {

/// The cost with which passwords are hashed.
pub const BCRYPT_COST: u32 = 12;

/// The error that [`bcrypt::hash`] and [`bcrypt::verify`] give.
#[verifier::external_type_specification]
#[verifier::external_body]
pub struct ExBcryptError(bcrypt::BcryptError);

/// The error that [`std::str::from_utf8`] gives.
#[verifier::external_type_specification]
#[verifier::external_body]
pub struct ExUtf8Error(std::str::Utf8Error);

/// [`std::str::from_utf8`]: succeeds exactly on valid UTF-8, and gives the text
/// whose encoding the bytes are.
pub assume_specification[ std::str::from_utf8 ](v: &[u8]) -> (text: Result<
    &str,
    std::str::Utf8Error,
>)
    ensures
        text is Ok <==> valid_utf8(v@),
        text matches Ok(s) ==> s.spec_bytes() == v@,
;

/// What [`bcrypt::verify`] says of a password and a hash: `Some` of its verdict,
/// or `None` where it gives an error.
pub uninterp spec fn bcrypt_verdict(password: Seq<char>, hash: Seq<char>) -> Option<bool>;

/// A decimal digit.
pub open spec fn decimal_char(value: int) -> char {
    ('0' as int + value) as char
}

/// The shape of a bcrypt hash: 60 ASCII characters that start with the version
/// and with the cost in two digits.
pub open spec fn is_bcrypt_hash(hash: Seq<char>, cost: u32) -> bool {
    &&& hash.len() == 60
    &&& is_ascii_chars(hash)
    &&& hash.subrange(0, 7) == seq![
        '$',
        '2',
        'b',
        '$',
        decimal_char(cost as int / 10),
        decimal_char(cost as int % 10),
        '$',
    ]
}

/// [`bcrypt::hash`]: a hash at the given cost that [`bcrypt::verify`] accepts for
/// the same password, and on which it gives a verdict for every password but those
/// with NUL. A hash comes only for a cost from 4 to 31 and a password
/// without NUL. The salt is random, and the system's source of randomness may
/// fail: which hash comes, and that one comes at all, is left open.
#[verifier::external_body]
pub(crate) fn bcrypt_hash(password: &str, cost: u32) -> (hashed: Result<
    String,
    bcrypt::BcryptError,
>)
    ensures
        hashed matches Ok(hash) ==> {
            &&& 4 <= cost <= 31
            &&& !password@.contains('\0')
            &&& is_bcrypt_hash(hash@, cost)
            &&& bcrypt_verdict(password@, hash@) == Some(true)
            &&& forall|other: Seq<char>| #[trigger]
                bcrypt_verdict(other, hash@) is Some <==> !other.contains('\0')
        },
{
    bcrypt::hash(password, cost)
}

/// [`bcrypt::verify`], by the name of its result. A password with NUL is never
/// given a verdict. The hash is ASCII: on other text the call may panic.
#[verifier::external_body]
pub(crate) fn bcrypt_verify(password: &str, hash: &str) -> (verdict: Result<
    bool,
    bcrypt::BcryptError,
>)
    requires
        is_ascii_chars(hash@),
    ensures
        match verdict {
            Ok(accepted) => bcrypt_verdict(password@, hash@) == Some(accepted),
            Err(_) => bcrypt_verdict(password@, hash@) is None,
        },
        verdict is Ok ==> !password@.contains('\0'),
{
    bcrypt::verify(password, hash)
}

/// The verdict on a password against stored bytes. There is none where the bytes
/// are not ASCII text, or where bcrypt gives none.
pub open spec fn password_verdict(stored: Seq<u8>, password: Seq<char>) -> Option<bool> {
    if valid_utf8(stored) && is_ascii_chars(decode_utf8(stored)) {
        bcrypt_verdict(password, decode_utf8(stored))
    } else {
        None
    }
}

/// Whether stored bytes are an encryption of a password: a bcrypt hash at the
/// library's cost, against which the password is accepted, and every password
/// without NUL is given a verdict.
pub open spec fn is_encryption_of(stored: Seq<u8>, password: Seq<char>) -> bool {
    &&& valid_utf8(stored)
    &&& is_bcrypt_hash(decode_utf8(stored), BCRYPT_COST)
    &&& password_verdict(stored, password) == Some(true)
    &&& forall|other: Seq<char>| #[trigger]
        password_verdict(stored, other) is Some <==> !other.contains('\0')
}

/// The bytes of a hash that was made, if one was.
pub fn hash_bytes<E>(hashed: Result<String, E>) -> (bytes: Option<Vec<u8>>)
    ensures
        match hashed {
            Ok(hash) => bytes matches Some(b) && b@ == encode_utf8(hash@),
            Err(_) => bytes is None,
        },
{
    match hashed {
        Ok(hash) => Some(hash.as_str().as_bytes_vec()),
        Err(_) => None,
    }
}

/// What [`bcrypt::hash`] may give for a password at a cost.
pub closed spec fn may_hash_to(
    password: &str,
    cost: u32,
    hashed: Result<String, bcrypt::BcryptError>,
) -> bool {
    call_ensures(bcrypt_hash, (password, cost), hashed)
}

/// A hash, or an error, may come only from the call of [`bcrypt::hash`] itself.
proof fn lemma_may_hash_to(
    password: &str,
    cost: u32,
    hashed: Result<String, bcrypt::BcryptError>,
)
    ensures
        may_hash_to(password, cost, hashed) <==> call_ensures(
            bcrypt_hash,
            (password, cost),
            hashed,
        ),
{
}

/// A hash that may come for a password shows its cost, is accepted for that password,
/// and gives a verdict on every password without NUL; none may come for a password
/// with NUL.
pub proof fn law_hash(password: &str, cost: u32, hash: String)
    requires
        may_hash_to(password, cost, Ok(hash)),
    ensures
        4 <= cost <= 31,
        !password@.contains('\0'),
        hash@.len() == 60,
        is_ascii_chars(hash@),
        hash@.subrange(0, 4) == "$2b$"@,
        hash@[4] as int == 48 + cost as int / 10,
        hash@[5] as int == 48 + cost as int % 10,
        hash@[6] == '$',
        bcrypt_verdict(password@, hash@) == Some(true),
        forall|other: Seq<char>| #[trigger]
            bcrypt_verdict(other, hash@) is Some <==> !other.contains('\0'),
{
    reveal_strlit("$2b$");
    let start = hash@.subrange(0, 7);
    assert(start[0] == '$' && start[1] == '2' && start[2] == 'b' && start[3] == '$');
    assert(start[4] == decimal_char(cost as int / 10));
    assert(start[5] == decimal_char(cost as int % 10));
    assert(start[6] == '$');
    assert(hash@.subrange(0, 4) =~= "$2b$"@);
}

/// The verdict on a password against stored bytes is bcrypt's own, where the bytes are
/// the encoding of an ASCII text; where they are not, there is none.
pub proof fn law_password_verdict(stored: Seq<u8>, password: Seq<char>, hash: Seq<char>)
    ensures
        stored == encode_utf8(hash) && is_ascii_chars(hash) ==> password_verdict(stored, password)
            == bcrypt_verdict(password, hash),
        password_verdict(stored, password) is Some ==> exists|text: Seq<char>|
            stored == #[trigger] encode_utf8(text) && is_ascii_chars(text),
{
    if stored == encode_utf8(hash) && is_ascii_chars(hash) {
        encode_utf8_valid_utf8(hash);
        encode_utf8_decode_utf8(hash);
    }
    if valid_utf8(stored) {
        decode_utf8_encode_utf8(stored);
    }
}

/// Stored bytes that encrypt a password are the encoding of a hash of 60 characters
/// whose cost is 12, which bcrypt accepts for that password, and on which it has a
/// verdict on every password without NUL.
pub proof fn law_encryption(stored: Seq<u8>, password: Seq<char>)
    requires
        is_encryption_of(stored, password),
    ensures
        exists|hash: Seq<char>| {
            &&& stored == #[trigger] encode_utf8(hash)
            &&& hash.len() == 60
            &&& hash.subrange(0, 7) == "$2b$12$"@
            &&& bcrypt_verdict(password, hash) == Some(true)
            &&& forall|other: Seq<char>| #[trigger]
                bcrypt_verdict(other, hash) is Some <==> !other.contains('\0')
        },
{
    let hash = decode_utf8(stored);
    decode_utf8_encode_utf8(stored);
    reveal_strlit("$2b$12$");
    assert(hash.subrange(0, 7) =~= "$2b$12$"@);
    assert forall|other: Seq<char>| #[trigger] bcrypt_verdict(other, hash) is Some
        <==> !other.contains('\0') by {
        assert(password_verdict(stored, other) == bcrypt_verdict(other, hash));
    }
    assert(stored == encode_utf8(hash));
}

/// Hashes a password at a cost by a function that does so.
fn hash_by<F: Fn(&str, u32) -> Result<String, bcrypt::BcryptError>>(
    hash: F,
    password: &str,
    cost: u32,
) -> (hashed: Result<String, bcrypt::BcryptError>)
    requires
        call_requires(hash, (password, cost)),
    ensures
        call_ensures(hash, (password, cost), hashed),
{
    hash(password, cost)
}

/// Encrypts a password. There is no result for a password with NUL, nor where no
/// salt could be drawn; in every other case there is one.
pub fn encrypt_password(password: &str) -> (encrypted: Option<Vec<u8>>)
    ensures
        encrypted matches Some(bytes) ==> is_encryption_of(bytes@, password@),
        password@.contains('\0') ==> encrypted is None,
        exists|hashed: Result<String, bcrypt::BcryptError>| #[trigger]
            may_hash_to(password, 12, hashed) && match hashed {
                Ok(hash) => encrypted matches Some(bytes) && bytes@ == encode_utf8(hash@),
                Err(_) => encrypted is None,
            },
{
    let hashed = hash_by(bcrypt_hash, password, BCRYPT_COST);
    proof {
        lemma_may_hash_to(password, BCRYPT_COST, hashed);
        if hashed is Ok {
            encode_utf8_valid_utf8(hashed->Ok_0@);
            encode_utf8_decode_utf8(hashed->Ok_0@);
        }
    }
    hash_bytes(hashed)
}

/// Checks a password against stored bytes.
pub fn check_password(stored: &Vec<u8>, password: &str) -> (verdict: Option<bool>)
    ensures
        verdict == password_verdict(stored@, password@),
        forall|hash: Seq<char>|
            stored@ == #[trigger] encode_utf8(hash) && is_ascii_chars(hash) ==> verdict
                == bcrypt_verdict(password@, hash),
        verdict is Some ==> exists|hash: Seq<char>|
            stored@ == #[trigger] encode_utf8(hash) && is_ascii_chars(hash),
{
    proof {
        assert forall|hash: Seq<char>|
            stored@ == #[trigger] encode_utf8(hash) && is_ascii_chars(hash) implies
            password_verdict(stored@, password@) == bcrypt_verdict(password@, hash) by {
            law_password_verdict(stored@, password@, hash);
        }
        law_password_verdict(stored@, password@, seq![]);
    }
    match std::str::from_utf8(stored.as_slice()) {
        Ok(hash) => {
            proof {
                encode_utf8_decode_utf8(hash@);
            }
            if hash.is_ascii() {
                match bcrypt_verify(password, hash) {
                    Ok(accepted) => Some(accepted),
                    Err(_) => None,
                }
            } else {
                None
            }
        },
        Err(_) => None,
    }
}

/// [`check_password`] gives bcrypt's own verdict on the password and the text that is
/// stored, for every password, where that text is ASCII, and none where the bytes are the
/// encoding of no such text.
pub proof fn law_check_password(
    stored: &Vec<u8>,
    password: &str,
    hash: Seq<char>,
    verdict: Option<bool>,
)
    requires
        call_ensures(check_password, (stored, password), verdict),
    ensures
        stored@ == encode_utf8(hash) && is_ascii_chars(hash) ==> verdict == bcrypt_verdict(
            password@,
            hash,
        ),
        (forall|text: Seq<char>| is_ascii_chars(text) ==> stored@ != #[trigger] encode_utf8(text))
            ==> verdict is None,
{
}

/// [`encrypt_password`] gives the bytes of a hash that bcrypt may give for that very
/// password at the cost 12, or nothing where bcrypt may give an error for it. So what it
/// gives is accepted for that password by [`check_password`].
pub proof fn law_encrypt_password(
    password: &str,
    encrypted: Option<Vec<u8>>,
    stored: &Vec<u8>,
    verdict: Option<bool>,
)
    requires
        call_ensures(encrypt_password, (password,), encrypted),
        call_ensures(check_password, (stored, password), verdict),
    ensures
        exists|hashed: Result<String, bcrypt::BcryptError>| #[trigger]
            may_hash_to(password, 12, hashed) && match hashed {
                Ok(hash) => encrypted matches Some(bytes) && bytes@ == encode_utf8(hash@),
                Err(_) => encrypted is None,
            },
        encrypted matches Some(bytes) ==> stored@ == bytes@ ==> verdict == Some(true),
{
}

/// Why a password could not be set.
#[derive(Clone, Copy, Debug, PartialEq, Eq, Structural)]
pub enum PasswordError {
    /// The password could not be encrypted.
    NotEncrypted,
}

} // verus!
