//! The environment as the resolver sees it: for each slot the text of its
//! variable, or the reason why there is none.
use crate::config::Defaults;
use crate::error::{unset_text, Error, ErrorKind, ErrorView};
use vstd::prelude::*;

verus! {

/// What is known of the seven variables, taken at one moment. A variable has a
/// text, or a message that says why it has none: that it is not set, or that
/// what it holds is no text.
pub struct Environment {
    config: Result<String, String>,
    profile: Result<String, String>,
    username: Result<String, String>,
    host: Result<String, String>,
    port: Result<String, String>,
    pwd: Result<String, String>,
    token: Result<String, String>,
}

/// What is held for one variable, as contracts see it.
pub open spec fn reading_of(held: Result<String, String>) -> Result<Seq<char>, Seq<char>> {
    match held {
        Ok(text) => Ok(text@),
        Err(why) => Err(why@),
    }
}

/// The reading of a variable that is not set.
pub open spec fn unset() -> Result<Seq<char>, Seq<char>> {
    Err(unset_text())
}

impl View for Environment {
    type V = Map<Defaults, Result<Seq<char>, Seq<char>>>;

    /// Every slot with the text of its variable, or the reason for its absence.
    open spec fn view(&self) -> Map<Defaults, Result<Seq<char>, Seq<char>>> {
        Map::total(|slot: Defaults| reading_of(self.value(slot)))
    }
}

impl Environment {
    /// What is held for `slot`.
    pub closed spec fn value(&self, slot: Defaults) -> Result<String, String> {
        match slot {
            Defaults::Config => self.config,
            Defaults::Profile => self.profile,
            Defaults::Username => self.username,
            Defaults::Host => self.host,
            Defaults::Port => self.port,
            Defaults::Pwd => self.pwd,
            Defaults::Token => self.token,
        }
    }

    /// The environment in which no variable is set.
    pub fn new() -> (env: Self)
        ensures
            env@ == Map::total(|slot: Defaults| unset()),
    {
        let env = Environment {
            config: Err("environment variable not found".to_owned()),
            profile: Err("environment variable not found".to_owned()),
            username: Err("environment variable not found".to_owned()),
            host: Err("environment variable not found".to_owned()),
            port: Err("environment variable not found".to_owned()),
            pwd: Err("environment variable not found".to_owned()),
            token: Err("environment variable not found".to_owned()),
        };
        assert(env@ =~= Map::total(|slot: Defaults| unset()));
        env
    }

    /// Asks `lookup` for each of the seven variables by name, once, and keeps
    /// the answers: the text, or the message that says why there is none.
    pub fn capture<F: Fn(&str) -> Result<String, String>>(lookup: F) -> (env: Self)
        requires
            forall|slot: Defaults| lookup.requires((slot.as_str(),)),
        ensures
            forall|slot: Defaults| lookup.ensures((slot.as_str(),), #[trigger] env.value(slot)),
    {
        let env = Environment {
            config: lookup(Defaults::Config.as_str()),
            profile: lookup(Defaults::Profile.as_str()),
            username: lookup(Defaults::Username.as_str()),
            host: lookup(Defaults::Host.as_str()),
            port: lookup(Defaults::Port.as_str()),
            pwd: lookup(Defaults::Pwd.as_str()),
            token: lookup(Defaults::Token.as_str()),
        };
        env
    }

    /// Puts `held` in the place of `slot`.
    fn put(&mut self, slot: Defaults, held: Result<String, String>)
        ensures
            final(self)@ == old(self)@.insert(slot, reading_of(held)),
    {
        match slot {
            Defaults::Config => self.config = held,
            Defaults::Profile => self.profile = held,
            Defaults::Username => self.username = held,
            Defaults::Host => self.host = held,
            Defaults::Port => self.port = held,
            Defaults::Pwd => self.pwd = held,
            Defaults::Token => self.token = held,
        }
        assert(self@ =~= old(self)@.insert(slot, reading_of(held)));
    }

    /// Sets the variable of `slot` to `text`.
    pub fn set(&mut self, slot: Defaults, text: &str)
        ensures
            final(self)@ == old(self)@.insert(slot, Ok(text@)),
    {
        self.put(slot, Ok(text.to_owned()));
    }

    /// Removes the variable of `slot`.
    pub fn remove(&mut self, slot: Defaults)
        ensures
            final(self)@ == old(self)@.insert(slot, unset()),
    {
        self.put(slot, Err("environment variable not found".to_owned()));
    }

    /// What is held for `slot`.
    fn held(&self, slot: Defaults) -> (held: &Result<String, String>)
        ensures
            reading_of(*held) == self@[slot],
    {
        match slot {
            Defaults::Config => &self.config,
            Defaults::Profile => &self.profile,
            Defaults::Username => &self.username,
            Defaults::Host => &self.host,
            Defaults::Port => &self.port,
            Defaults::Pwd => &self.pwd,
            Defaults::Token => &self.token,
        }
    }

    /// The text of `slot`, if its variable has one.
    pub fn get(&self, slot: Defaults) -> (found: Option<&str>)
        ensures
            match found {
                Some(text) => self@[slot] == Ok::<Seq<char>, Seq<char>>(text@),
                None => self@[slot] is Err,
            },
    {
        match self.held(slot) {
            Ok(text) => Some(text.as_str()),
            Err(_) => None,
        }
    }

    /// The text of `slot`, or the error that names the slot and says why its
    /// variable has no text.
    pub fn require(&self, slot: Defaults) -> (found: Result<&str, Error>)
        ensures
            match found {
                Ok(text) => self@[slot] == Ok::<Seq<char>, Seq<char>>(text@),
                Err(error) => self@[slot] == Err::<Seq<char>, Seq<char>>(error@.message)
                    && error@.kind == ErrorKind::Environment(slot),
            },
    {
        match self.held(slot) {
            Ok(text) => Ok(text.as_str()),
            Err(why) => Err(Error::new(ErrorKind::Environment(slot), why.clone())),
        }
    }
}

} // verus!
