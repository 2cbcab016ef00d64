//! Connection profiles and the environment variables that complete them.
use crate::environment::Environment;
use crate::error::{Error, ErrorKind};
use crate::host::Host;
use crate::lookup::{decodes, loads, looked_up, picked, read_as, takes};
use crate::port::parse_port;
use crate::resolution::{required, resolved};
use crate::secrets::{Mask, Secret, SecretView};
use crate::store::ProfileStore;
use vstd::prelude::*;

verus! {

/// The environment variables that stand in for arguments left out.
#[derive(Clone, Copy, Debug, PartialEq, Eq, Structural)]
pub enum Defaults {
    Config,
    Profile,
    Username,
    Host,
    Port,
    Pwd,
    Token,
}

impl Defaults {
    /// The name of the environment variable bound to this slot.
    pub open spec fn spec_as_str(self) -> &'static str {
        match self {
            Defaults::Config => "DR_CONFIG",
            Defaults::Profile => "DR_PROFILE",
            Defaults::Username => "DR_USER",
            Defaults::Host => "DR_HOST",
            Defaults::Port => "DR_PORT",
            Defaults::Pwd => "DR_PWD",
            Defaults::Token => "DR_TOKEN",
        }
    }

    /// The variable's name, borrowed.
    #[verifier::when_used_as_spec(spec_as_str)]
    pub fn as_str(self) -> (name: &'static str)
        ensures
            name == self.spec_as_str(),
    {
        match self {
            Defaults::Config => "DR_CONFIG",
            Defaults::Profile => "DR_PROFILE",
            Defaults::Username => "DR_USER",
            Defaults::Host => "DR_HOST",
            Defaults::Port => "DR_PORT",
            Defaults::Pwd => "DR_PWD",
            Defaults::Token => "DR_TOKEN",
        }
    }

    /// The variable's name, owned.
    pub fn to_string(&self) -> (name: String)
        ensures
            name@ == self.as_str()@,
    {
        self.as_str().to_owned()
    }
}

impl From<Defaults> for String {
    /// The name of the slot's variable.
    fn from(value: Defaults) -> (name: String)
        ensures
            name@ == value.as_str()@,
    {
        value.to_string()
    }
}

/// No `String` can be written down in specifications, so the conversion is
/// stated by `from` itself, over views.
impl vstd::std_specs::convert::FromSpecImpl<Defaults> for String {
    open spec fn obeys_from_spec() -> bool {
        false
    }

    open spec fn from_spec(value: Defaults) -> Self {
        arbitrary()
    }
}

impl<'a> From<&'a Defaults> for String {
    /// The name of the slot's variable.
    fn from(value: &'a Defaults) -> (name: String)
        ensures
            name@ == value.as_str()@,
    {
        value.to_string()
    }
}

/// As for the conversion from a slot by value.
impl<'a> vstd::std_specs::convert::FromSpecImpl<&'a Defaults> for String {
    open spec fn obeys_from_spec() -> bool {
        false
    }

    open spec fn from_spec(value: &'a Defaults) -> Self {
        arbitrary()
    }
}

/// No two slots are bound to the same variable.
pub proof fn lemma_names_differ(one: Defaults, other: Defaults)
    requires
        one != other,
    ensures
        one.as_str()@ != other.as_str()@,
{
    reveal_strlit("DR_CONFIG");
    reveal_strlit("DR_PROFILE");
    reveal_strlit("DR_USER");
    reveal_strlit("DR_HOST");
    reveal_strlit("DR_PORT");
    reveal_strlit("DR_PWD");
    reveal_strlit("DR_TOKEN");
    if one.as_str()@.len() == other.as_str()@.len() {
        assert(one.as_str()@[3] != other.as_str()@[3]);
    }
}

/// Credentials for connecting to Dremio.
pub struct Profile {
    pub username: String,
    pub secret: Secret<String>,
    pub host: Host,
}

/// A profile as contracts see it.
pub struct ProfileView {
    pub username: Seq<char>,
    pub secret: SecretView<Seq<char>>,
    pub host: Seq<char>,
}

impl View for Profile {
    type V = ProfileView;

    open spec fn view(&self) -> ProfileView {
        ProfileView { username: self.username@, secret: self.secret@, host: self.host@ }
    }
}

impl Clone for Profile {
    fn clone(&self) -> (copy: Self)
        ensures
            copy@ == self@,
    {
        Profile {
            username: self.username.clone(),
            secret: self.secret.clone(),
            host: self.host.clone(),
        }
    }
}

/// The text of an argument that may be left out.
pub open spec fn text_of(given: Option<&str>) -> Option<Seq<char>> {
    match given {
        Some(text) => Some(text@),
        None => None,
    }
}

/// The masked text of a secret that may be left out, without its tag.
pub open spec fn payload_of(given: Option<Secret<String>>) -> Option<Seq<char>> {
    match given {
        Some(secret) => Some(secret.spec_mask()@),
        None => None,
    }
}

/// The text of a host that may be left out.
pub open spec fn href_of(given: Option<Host>) -> Option<Seq<char>> {
    match given {
        Some(host) => Some(host@),
        None => None,
    }
}

/// Loads the profile store at `path`: `read` gives the text that stands there,
/// or says why it cannot; `decode` gives the store that the text writes, or
/// says why it writes none.
pub fn load<
    R: FnOnce(&str) -> Result<String, String>,
    D: FnOnce(&str) -> Result<ProfileStore, String>,
>(path: &str, read: R, decode: D) -> (loaded: Result<ProfileStore, Error>)
    requires
        read.requires((path,)),
        forall|text: &str| decode.requires((text,)),
    ensures
        exists|text: Result<String, String>| #[trigger]
            read.ensures((path,), text) && read_as(text, decode, loaded),
{
    match read(path) {
        Ok(content) => {
            let decoded = decode(content.as_str());
            assert(decodes(decode, content@, decoded));
            match decoded {
                Ok(store) => Ok(store),
                Err(why) => Err(Error::new(ErrorKind::Parse, why)),
            }
        },
        Err(why) => Err(Error::new(ErrorKind::File, why)),
    }
}

/// Loads the store whose path the environment gives.
pub fn default<F: FnOnce(&str) -> Result<ProfileStore, Error>>(
    env: &Environment,
    load: F,
) -> (loaded: Result<ProfileStore, Error>)
    requires
        env@[Defaults::Config] matches Ok(path) ==> takes(load, path),
    ensures
        match required(env@, Defaults::Config) {
            Ok(path) => loads(load, path, loaded),
            Err(absent) => loaded matches Err(error) && error@ == absent,
        },
{
    match env.require(Defaults::Config) {
        Ok(path) => load(path),
        Err(error) => Err(error),
    }
}

impl Profile {
    /// Creates a new profile.
    pub fn new(username: &str, secret: Secret<String>, host: Host) -> (profile: Self)
        ensures
            profile@ == (ProfileView { username: username@, secret: secret@, host: host@ }),
    {
        Profile { username: username.to_owned(), secret, host }
    }

    /// The profile named `name` in what came of loading the store at `path`.
    pub fn from_loaded(
        loaded: Result<ProfileStore, Error>,
        path: &str,
        name: &str,
    ) -> (outcome: Result<Self, Error>)
        ensures
            picked(loaded, path@, name@, outcome),
    {
        match loaded {
            Ok(store) => match store.get(name) {
                Some(profile) => Ok(profile.clone()),
                None => {
                    let mut message = "Profile ".to_owned();
                    message.append(name);
                    message.append(" is not in \"");
                    message.append(path);
                    message.append("\"");
                    Err(Error::new(ErrorKind::NotFound, message))
                },
            },
            Err(cause) => Err(cause),
        }
    }

    /// Loads the store at `path` and takes the profile named `name` from it.
    pub fn load_with<F: FnOnce(&str) -> Result<ProfileStore, Error>>(
        path: &str,
        name: &str,
        load: F,
    ) -> (outcome: Result<Self, Error>)
        requires
            takes(load, path@),
        ensures
            looked_up(load, path@, name@, outcome),
    {
        let loaded = load(path);
        assert(loads(load, path@, loaded));
        Profile::from_loaded(loaded, path, name)
    }

    /// Loads the store and takes the profile that the environment names.
    pub fn try_default<F: FnOnce(&str) -> Result<ProfileStore, Error>>(
        env: &Environment,
        load: F,
    ) -> (outcome: Result<Self, Error>)
        requires
            env@[Defaults::Config] matches Ok(path) ==> takes(load, path),
        ensures
            match (required(env@, Defaults::Config), required(env@, Defaults::Profile)) {
                (Ok(path), Ok(name)) => looked_up(load, path, name, outcome),
                (Ok(_), Err(absent)) => outcome matches Err(error) && error@ == absent,
                (Err(absent), _) => outcome matches Err(error) && error@ == absent,
            },
    {
        let path = match env.require(Defaults::Config) {
            Ok(path) => path,
            Err(error) => return Err(error),
        };
        let name = match env.require(Defaults::Profile) {
            Ok(name) => name,
            Err(error) => return Err(error),
        };
        Profile::load_with(path, name, load)
    }

    /// Creates a profile from the arguments that are given and, for each that
    /// is not, from the environment.
    pub fn from_envars(
        env: &Environment,
        username: Option<&str>,
        token: Option<Secret<String>>,
        pwd: Option<Secret<String>>,
        host: Option<Host>,
        port: Option<u16>,
    ) -> (made: Result<Self, Error>)
        ensures
            match resolved(
                env@,
                text_of(username),
                payload_of(token),
                payload_of(pwd),
                href_of(host),
                port,
            ) {
                Ok(profile) => made matches Ok(found) && found@ == profile,
                Err(failure) => made matches Err(error) && error@ == failure,
            },
    {
        let username = match username {
            Some(name) => name,
            None => match env.require(Defaults::Username) {
                Ok(name) => name,
                Err(error) => return Err(error),
            },
        };
        let secret = match (token, pwd) {
            (Some(given), _) => Secret::Token(given.mask()),
            (None, Some(given)) => Secret::Pwd(given.mask()),
            (None, None) => match env.get(Defaults::Token) {
                Some(text) => Secret::Token(Mask::new(text.to_owned())),
                None => match env.require(Defaults::Pwd) {
                    Ok(text) => Secret::Pwd(Mask::new(text.to_owned())),
                    Err(error) => return Err(error),
                },
            },
        };
        let host = match host {
            Some(given) => given,
            None => match env.require(Defaults::Host) {
                Ok(text) => match Host::parse(text) {
                    Ok(parsed) => parsed,
                    Err(error) => return Err(error),
                },
                Err(error) => return Err(error),
            },
        };
        let port = match port {
            Some(number) => Some(number),
            None => match env.get(Defaults::Port) {
                Some(text) => parse_port(text),
                None => None,
            },
        };
        let host = match port {
            Some(number) => match host.with_port(number) {
                Ok(changed) => changed,
                Err(error) => return Err(error),
            },
            None => host,
        };
        Ok(Profile::new(username, secret, host))
    }
}

} // verus!
