//! Persistence support: the error a storage backend reports, and the key
//! under which the browser storage backend keeps a configuration type.

use vstd::prelude::*;

use crate::config::Config;

verus! {

/// Errors a backend may surface when storing overrides. Loading reports no
/// error: any failure there means "no stored overrides".
#[derive(Debug, Clone, PartialEq, Eq)]
pub enum BackendError {
    Io(String),
    Serialize(String),
    /// Deserialisation error (reading).
    Deserialize(String),
    /// Storage unavailable or not authorised.
    Unsupported(String),
}

/// Persistence of a configuration's sparse overrides. Implementations read
/// and write storage (a file, browser storage, …).
pub trait ConfigBackend<C: Config>: Send + Sync + 'static {
    /// Read the stored overrides: `None` on first run, when nothing is
    /// stored, or on any failure, so that the platform default is used.
    fn load(&self) -> Option<C::Overrides>;

    /// Write `overrides` to the underlying storage.
    #[must_use]
    fn store(&self, overrides: &C::Overrides) -> Result<(), BackendError>;
}

/// The message for an error: a prefix naming its kind, then its detail.
pub open spec fn error_message(e: BackendError) -> Seq<char> {
    match e {
        BackendError::Io(s) => "io error: "@ + s@,
        BackendError::Serialize(s) => "serialize error: "@ + s@,
        BackendError::Deserialize(s) => "deserialize error: "@ + s@,
        BackendError::Unsupported(s) => "unsupported: "@ + s@,
    }
}

impl BackendError {
    /// Human-readable message: `"io error: <detail>"`,
    /// `"serialize error: <detail>"`, `"deserialize error: <detail>"` or
    /// `"unsupported: <detail>"`.
    pub fn message(&self) -> (m: String)
        ensures
            m@ == error_message(*self),
    {
        let (prefix, detail) = match self {
            BackendError::Io(s) => ("io error: ", s),
            BackendError::Serialize(s) => ("serialize error: ", s),
            BackendError::Deserialize(s) => ("deserialize error: ", s),
            BackendError::Unsupported(s) => ("unsupported: ", s),
        };
        let mut m = String::from_str(prefix);
        m.append(detail.as_str());
        m
    }
}

/// ASCII letters and digits.
pub open spec fn is_ascii_alphanumeric(c: char) -> bool {
    ('a' <= c && c <= 'z') || ('A' <= c && c <= 'Z') || ('0' <= c && c <= '9')
}

/// A type name made safe for a storage key: every character that is not an
/// ASCII letter or digit becomes `_`.
pub open spec fn sanitized(name: Seq<char>) -> Seq<char> {
    name.map_values(|c: char| if is_ascii_alphanumeric(c) { c } else { '_' })
}

/// `<app_id>.bevy_config.<sanitized type name>`.
pub open spec fn key_for(app_id: Seq<char>, config_type: Seq<char>) -> Seq<char> {
    app_id + ".bevy_config."@ + sanitized(config_type)
}

/// Appends one character to a string (`String::push`).
#[verifier::external_body]
fn push_char(s: &mut String, c: char)
    ensures
        final(s)@ == old(s)@.push(c),
{
    s.push(c);
}

/// The browser-storage key for a configuration type with the given type
/// name, under the application id `app_id`.
pub fn storage_key(app_id: &str, config_type: &str) -> (key: String)
    ensures
        key@ == key_for(app_id@, config_type@),
{
    let mut key = String::from_str(app_id);
    key.append(".bevy_config.");
    let ghost prefix = key@;
    let n = config_type.unicode_len();
    let mut i: usize = 0;
    while i < n
        invariant
            n == config_type@.len(),
            i <= n,
            prefix == app_id@ + ".bevy_config."@,
            key@ == prefix + sanitized(config_type@.take(i as int)),
        decreases n - i,
    {
        let c = config_type.get_char(i);
        let safe = if ('a' <= c && c <= 'z') || ('A' <= c && c <= 'Z') || ('0' <= c && c <= '9') {
            c
        } else {
            '_'
        };
        push_char(&mut key, safe);
        assert(sanitized(config_type@.take(i + 1)) =~= sanitized(config_type@.take(i as int)).push(
            safe,
        ));
        i = i + 1;
    }
    assert(config_type@.take(n as int) =~= config_type@);
    key
}

/// Error messages are the kind's prefix followed by the detail.
pub proof fn lemma_error_messages(detail: String)
    ensures
        error_message(BackendError::Io(detail)) == "io error: "@ + detail@,
        error_message(BackendError::Serialize(detail)) == "serialize error: "@ + detail@,
        error_message(BackendError::Deserialize(detail)) == "deserialize error: "@ + detail@,
        error_message(BackendError::Unsupported(detail)) == "unsupported: "@ + detail@,
{
}

/// Letters and digits are exactly the ASCII ranges `a..=z`, `A..=Z`,
/// `0..=9`.
pub proof fn lemma_ascii_alphanumeric(c: char)
    ensures
        is_ascii_alphanumeric(c) <==> (('a' <= c && c <= 'z') || ('A' <= c && c <= 'Z') || ('0'
            <= c && c <= '9')),
        is_ascii_alphanumeric('a') && is_ascii_alphanumeric('Z') && is_ascii_alphanumeric('0'),
        !is_ascii_alphanumeric('_') && !is_ascii_alphanumeric(':') && !is_ascii_alphanumeric('<')
            && !is_ascii_alphanumeric(' '),
{
}

/// Sanitising keeps the length, keeps every ASCII letter and digit where it
/// is, and puts `_` in place of every other character; so the result holds
/// only letters, digits and `_`.
pub proof fn lemma_sanitized(name: Seq<char>)
    ensures
        sanitized(name).len() == name.len(),
        forall|i: int|
            0 <= i < name.len() ==> (#[trigger] sanitized(name)[i] == if is_ascii_alphanumeric(
                name[i],
            ) {
                name[i]
            } else {
                '_'
            }),
        forall|i: int|
            0 <= i < name.len() ==> is_ascii_alphanumeric(#[trigger] sanitized(name)[i])
                || sanitized(name)[i] == '_',
{
}

/// A storage key is the application id, then `.bevy_config.`, then the
/// sanitised type name, and nothing else.
pub proof fn lemma_key_layout(app_id: Seq<char>, config_type: Seq<char>)
    ensures
        key_for(app_id, config_type).len() == app_id.len() + ".bevy_config."@.len()
            + config_type.len(),
        key_for(app_id, config_type).subrange(0, app_id.len() as int) == app_id,
        key_for(app_id, config_type).subrange(
            app_id.len() as int,
            (app_id.len() + ".bevy_config."@.len()) as int,
        ) == ".bevy_config."@,
        key_for(app_id, config_type).subrange(
            (app_id.len() + ".bevy_config."@.len()) as int,
            key_for(app_id, config_type).len() as int,
        ) == sanitized(config_type),
{
    lemma_sanitized(config_type);
    let key = key_for(app_id, config_type);
    let mid = ".bevy_config."@;
    assert(key.subrange(0, app_id.len() as int) =~= app_id);
    assert(key.subrange(app_id.len() as int, (app_id.len() + mid.len()) as int) =~= mid);
    assert(key.subrange((app_id.len() + mid.len()) as int, key.len() as int) =~= sanitized(
        config_type,
    ));
}

} // verus!
