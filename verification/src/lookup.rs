//! What loading a profile store and looking a profile up in it come to.
use crate::config::{Profile, ProfileView};
use crate::error::{Error, ErrorKind, ErrorView};
use crate::secrets::occurs_in;
use crate::store::ProfileStore;
use vstd::prelude::*;

verus! {

/// Whether `decode`, given `text`, may answer `decoded`.
pub open spec fn decodes<D: FnOnce(&str) -> Result<ProfileStore, String>>(
    decode: D,
    text: Seq<char>,
    decoded: Result<ProfileStore, String>,
) -> bool {
    exists|given: &str| given@ == text && #[trigger] decode.ensures((given,), decoded)
}

/// Whether `loaded` is what loading gives once the text of the store has been
/// read and `decoded` has come of it: the store as it is, or an error of kind
/// `Parse` with the decoder's message.
pub open spec fn decoded_as(
    decoded: Result<ProfileStore, String>,
    loaded: Result<ProfileStore, Error>,
) -> bool {
    match decoded {
        Ok(store) => loaded == Ok::<ProfileStore, Error>(store),
        Err(why) => loaded matches Err(error) && error@ == (ErrorView {
            kind: ErrorKind::Parse,
            message: why@,
        }),
    }
}

/// Whether `loaded` is what loading gives once `text` has come of reading the
/// store: an error of kind `File` with the reader's message, or what comes of
/// decoding the text; never a part of a store.
pub open spec fn read_as<D: FnOnce(&str) -> Result<ProfileStore, String>>(
    text: Result<String, String>,
    decode: D,
    loaded: Result<ProfileStore, Error>,
) -> bool {
    match text {
        Ok(content) => exists|decoded: Result<ProfileStore, String>| #[trigger]
            decodes(decode, content@, decoded) && decoded_as(decoded, loaded),
        Err(why) => loaded matches Err(error) && error@ == (ErrorView {
            kind: ErrorKind::File,
            message: why@,
        }),
    }
}

/// Whether `load` may be asked for the store at `path`.
pub open spec fn takes<F: FnOnce(&str) -> Result<ProfileStore, Error>>(
    load: F,
    path: Seq<char>,
) -> bool {
    forall|text: &str| text@ == path ==> #[trigger] load.requires((text,))
}

/// Whether `load`, asked for the store at `path`, may answer `loaded`.
pub open spec fn loads<F: FnOnce(&str) -> Result<ProfileStore, Error>>(
    load: F,
    path: Seq<char>,
    loaded: Result<ProfileStore, Error>,
) -> bool {
    exists|text: &str| text@ == path && #[trigger] load.ensures((text,), loaded)
}

/// What the error says when the store at `path` has no profile named `name`.
pub open spec fn missing_text(name: Seq<char>, path: Seq<char>) -> Seq<char> {
    "Profile "@ + name + " is not in \""@ + path + "\""@
}

/// The profile named `name` in a store that was read from `path`, or the
/// error that says it is not there.
pub open spec fn selected(
    store: Map<Seq<char>, ProfileView>,
    path: Seq<char>,
    name: Seq<char>,
) -> Result<ProfileView, ErrorView> {
    if store.contains_key(name) {
        Ok(store[name])
    } else {
        Err(ErrorView { kind: ErrorKind::NotFound, message: missing_text(name, path) })
    }
}

/// Whether `outcome` is what a lookup of `name` gives once the store at `path`
/// has been asked for and `loaded` has come back: the error of a failed load
/// as it is, else the profile of that name or the error for its absence.
pub open spec fn picked(
    loaded: Result<ProfileStore, Error>,
    path: Seq<char>,
    name: Seq<char>,
    outcome: Result<Profile, Error>,
) -> bool {
    match loaded {
        Ok(store) => match selected(store@, path, name) {
            Ok(profile) => outcome matches Ok(found) && found@ == profile,
            Err(absent) => outcome matches Err(error) && error@ == absent,
        },
        Err(cause) => outcome == Err::<Profile, Error>(cause),
    }
}

/// Whether `outcome` is what a lookup of `name` in the store at `path` gives
/// for some answer of `load`.
pub open spec fn looked_up<F: FnOnce(&str) -> Result<ProfileStore, Error>>(
    load: F,
    path: Seq<char>,
    name: Seq<char>,
    outcome: Result<Profile, Error>,
) -> bool {
    exists|loaded: Result<ProfileStore, Error>| #[trigger]
        loads(load, path, loaded) && picked(loaded, path, name, outcome)
}

/// A lookup in a store that was loaded gives the profile kept under the name,
/// exactly; where there is none, the error's message holds both the name asked
/// for and the path of the store.
pub proof fn lemma_lookup_is_exact(
    store: Map<Seq<char>, ProfileView>,
    path: Seq<char>,
    name: Seq<char>,
)
    ensures
        store.contains_key(name) ==> selected(store, path, name) == Ok::<ProfileView, ErrorView>(
            store[name],
        ),
        !store.contains_key(name) ==> {
            &&& selected(store, path, name) is Err
            &&& selected(store, path, name)->Err_0.kind == ErrorKind::NotFound
            &&& occurs_in(name, selected(store, path, name)->Err_0.message)
            &&& occurs_in(path, selected(store, path, name)->Err_0.message)
        },
{
    let text = missing_text(name, path);
    let lead = "Profile "@.len() as int;
    let link = " is not in \""@.len() as int;
    assert(text.subrange(lead, lead + name.len()) == name);
    let start = lead + name.len() + link;
    assert(text.subrange(start, start + path.len()) == path);
}

} // verus!
