//! A small key-value configuration store for application keybindings.
//!
//! A store holds a mapping from action names to human-readable key-combination
//! strings, backed by a single file on disk that carries the mapping as a flat
//! YAML document. The store parses and serializes that document itself; the
//! caller reads and writes the file and hands the text in and out.

use vstd::prelude::*;

pub mod bindings;
pub mod keybindings_config;
pub mod yaml;

pub use keybindings_config::KeybindingsConfig;

use crate::bindings::{distinct_keys, pairs_map};

verus! {

/// Why an operation on a configuration store failed.
#[derive(Clone, Copy, Debug, PartialEq, Eq, Structural)]
pub enum ConfigError {
    /// The backing file could not be opened, read, written, locked or unlocked.
    IOFailure,
    /// The in-memory mapping could not be encoded as a document.
    SerializationFailure,
    /// The file's contents do not parse as a flat string-to-string mapping.
    DeserializationFailure,
}

/// A configuration store: a mapping from action names to key-combination
/// strings, backed by one file whose text carries the mapping in some flat
/// string-to-string document format.
///
/// The store itself performs no I/O. The caller reads the backing file and
/// hands its text to `new`, and writes the text that `save` returns back to
/// the file at `path`, under an exclusive advisory lock in both directions.
pub trait Config: Sized {
    /// The in-memory mapping from action names to key combinations.
    spec fn bindings(&self) -> Map<Seq<char>, Seq<char>>;

    /// The path of the backing file, as given at construction.
    spec fn path(&self) -> Seq<char>;

    /// Which documents parse as a flat string mapping, and to which mapping.
    spec fn parses(text: Seq<char>) -> Option<Map<Seq<char>, Seq<char>>>;

    /// The bindings a store starts from when no file exists at its path.
    spec fn initial() -> Map<Seq<char>, Seq<char>>;

    /// Builds a store for the file at `filename`. `contents` is the text of
    /// that file, or `None` where no file exists: then the store starts from
    /// the built-in initial bindings, and no file is created. A text that
    /// does not parse as a flat string-to-string mapping is a fatal error;
    /// the store does not fall back to the initial bindings then.
    fn new(filename: String, contents: Option<String>) -> (r: Result<Self, ConfigError>)
        ensures
            match r {
                Ok(c) => c.path() == filename@ && match contents {
                    Some(text) => Self::parses(text@) == Some(c.bindings()),
                    None => c.bindings() == Self::initial(),
                },
                Err(e) => e == ConfigError::DeserializationFailure
                    && (contents matches Some(text) && Self::parses(text@) is None),
            },
    ;

    /// The key combination bound to the action `key`, or `None` where the
    /// action is not bound. A pure read of the in-memory mapping.
    fn get(&self, key: &str) -> (r: Option<String>)
        ensures
            match r {
                Some(v) => self.bindings().contains_key(key@) && self.bindings()[key@] == v@,
                None => !self.bindings().contains_key(key@),
            },
    ;

    /// Reverse lookup: some action whose bound key combination equals `value`
    /// exactly, or `None` where no action is bound to it. Where several
    /// actions share the combination, which one comes back is not specified.
    fn get_key_from_value(&self, value: &str) -> (r: Option<String>)
        ensures
            match r {
                Some(k) => self.bindings().contains_key(k@) && self.bindings()[k@] == value@,
                None => forall|k: Seq<char>|
                    self.bindings().contains_key(k) ==> self.bindings()[k] != value@,
            },
    ;

    /// Replaces the whole in-memory mapping with the given pairs; nothing of
    /// the previous mapping remains. No effect on disk until `save`.
    fn set(&mut self, new_data: Vec<(String, String)>)
        requires
            distinct_keys(new_data@),
        ensures
            final(self).bindings() == pairs_map(new_data@),
            final(self).path() == old(self).path(),
    ;

    /// Serializes the in-memory mapping to the document text that belongs in
    /// the backing file: a text that parses back to exactly this mapping.
    /// Serialization of a flat string-to-string mapping succeeds on every
    /// call; the `Result` stays so that a caller doing the file I/O can keep
    /// one error taxonomy for the whole save path.
    fn save(&self) -> (r: Result<String, ConfigError>)
        ensures
            r is Ok,
            r matches Ok(text) ==> Self::parses(text@) == Some(self.bindings()),
    ;
}

/// Round trip: the document `save` returns parses back to the very bindings
/// that were saved, so a store rebuilt by `new` from that document carries
/// the same bindings and answers every lookup as the saved store did, for
/// bound and unbound actions alike.
///
/// The two premises are what `save` ensures of its document and what `new`
/// ensures of a store built from that same document.
pub proof fn lemma_save_then_load<C: Config>(
    text: Seq<char>,
    saved: Map<Seq<char>, Seq<char>>,
    loaded: Map<Seq<char>, Seq<char>>,
)
    requires
        C::parses(text) == Some(saved),
        C::parses(text) == Some(loaded),
    ensures
        loaded == saved,
        forall|k: Seq<char>| #[trigger] loaded.contains_key(k) <==> saved.contains_key(k),
        forall|k: Seq<char>| #[trigger] loaded.contains_key(k) ==> loaded[k] == saved[k],
{
}

} // verus!
