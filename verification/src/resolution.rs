//! What arguments and environment resolve to: the rules by which a profile
//! is put together, and what follows from them.
use crate::config::{payload_of, Defaults, ProfileView};
use crate::environment::unset;
use crate::error::{refused_port_text, ErrorKind, ErrorView};
use crate::host::{overlay, url_parse, url_parse_error};
use crate::port::port_of;
use crate::secrets::{Secret, SecretView};
use vstd::prelude::*;

verus! {

/// The text of a variable that must have one, or the error that names the
/// slot and carries the reason why it has none.
pub open spec fn required(
    env: Map<Defaults, Result<Seq<char>, Seq<char>>>,
    slot: Defaults,
) -> Result<Seq<char>, ErrorView> {
    match env[slot] {
        Ok(text) => Ok(text),
        Err(why) => Err(ErrorView { kind: ErrorKind::Environment(slot), message: why }),
    }
}

/// The username: the argument, else the variable.
pub open spec fn resolved_username(
    env: Map<Defaults, Result<Seq<char>, Seq<char>>>,
    username: Option<Seq<char>>,
) -> Result<Seq<char>, ErrorView> {
    match username {
        Some(name) => Ok(name),
        None => required(env, Defaults::Username),
    }
}

/// The secret. The place a text comes from decides its tag: the token argument
/// or variable gives a token, the password argument or variable a password,
/// and a token is taken before a password.
pub open spec fn resolved_secret(
    env: Map<Defaults, Result<Seq<char>, Seq<char>>>,
    token: Option<Seq<char>>,
    pwd: Option<Seq<char>>,
) -> Result<SecretView<Seq<char>>, ErrorView> {
    match (token, pwd) {
        (Some(text), _) => Ok(SecretView::Token(text)),
        (None, Some(text)) => Ok(SecretView::Pwd(text)),
        (None, None) => match env[Defaults::Token] {
            Ok(text) => Ok(SecretView::Token(text)),
            Err(_) => match required(env, Defaults::Pwd) {
                Ok(text) => Ok(SecretView::Pwd(text)),
                Err(error) => Err(error),
            },
        },
    }
}

/// The host before any port is laid over it: the argument, else the variable
/// read as a URL.
pub open spec fn resolved_host(
    env: Map<Defaults, Result<Seq<char>, Seq<char>>>,
    host: Option<Seq<char>>,
) -> Result<Seq<char>, ErrorView> {
    match host {
        Some(href) => Ok(href),
        None => match required(env, Defaults::Host) {
            Ok(text) => match url_parse(text) {
                Some(href) => Ok(href),
                None => Err(
                    ErrorView { kind: ErrorKind::UrlParse, message: url_parse_error(text) },
                ),
            },
            Err(error) => Err(error),
        },
    }
}

/// The port: the argument, else the variable where it has a text that writes
/// a port. A variable without a text, or with one that writes no port, gives
/// no port and no error.
pub open spec fn resolved_port(
    env: Map<Defaults, Result<Seq<char>, Seq<char>>>,
    port: Option<u16>,
) -> Option<u16> {
    match port {
        Some(number) => Some(number),
        None => match env[Defaults::Port] {
            Ok(text) => port_of(text),
            Err(_) => None,
        },
    }
}

/// The host with the port laid over it, where there is a port.
pub open spec fn with_resolved_port(href: Seq<char>, port: Option<u16>) -> Result<
    Seq<char>,
    ErrorView,
> {
    match port {
        Some(number) => match overlay(href, number) {
            Some(changed) => Ok(changed),
            None => Err(ErrorView { kind: ErrorKind::Invariant, message: refused_port_text() }),
        },
        None => Ok(href),
    }
}

/// The profile that arguments and environment give together, or the first
/// error met on the way: username, then secret, then host, then port.
pub open spec fn resolved(
    env: Map<Defaults, Result<Seq<char>, Seq<char>>>,
    username: Option<Seq<char>>,
    token: Option<Seq<char>>,
    pwd: Option<Seq<char>>,
    host: Option<Seq<char>>,
    port: Option<u16>,
) -> Result<ProfileView, ErrorView> {
    match resolved_username(env, username) {
        Err(error) => Err(error),
        Ok(username) => match resolved_secret(env, token, pwd) {
            Err(error) => Err(error),
            Ok(secret) => match resolved_host(env, host) {
                Err(error) => Err(error),
                Ok(href) => match with_resolved_port(href, resolved_port(env, port)) {
                    Err(error) => Err(error),
                    Ok(host) => Ok(ProfileView { username, secret, host }),
                },
            },
        },
    }
}

/// A secret given as the token argument comes out as a token with the same
/// masked text, whatever tag it came in with and whatever else is given or set.
pub proof fn lemma_token_argument_wins(
    env: Map<Defaults, Result<Seq<char>, Seq<char>>>,
    token: Secret<String>,
    pwd: Option<Secret<String>>,
)
    ensures
        resolved_secret(env, payload_of(Some(token)), payload_of(pwd)) == Ok::<
            SecretView<Seq<char>>,
            ErrorView,
        >(SecretView::Token(token.spec_mask()@)),
{
}

/// Without a token argument, a secret given as the password argument comes
/// out as a password with the same masked text, whatever tag it came in with
/// and whatever is set.
pub proof fn lemma_password_argument_used(
    env: Map<Defaults, Result<Seq<char>, Seq<char>>>,
    pwd: Secret<String>,
)
    ensures
        resolved_secret(env, None, payload_of(Some(pwd))) == Ok::<SecretView<Seq<char>>, ErrorView>(
            SecretView::Pwd(pwd.spec_mask()@),
        ),
{
}

/// With neither argument, the token variable is taken where it has a text,
/// whether or not the password variable has one too.
pub proof fn lemma_token_variable_first(env: Map<Defaults, Result<Seq<char>, Seq<char>>>)
    requires
        env[Defaults::Token] is Ok,
    ensures
        resolved_secret(env, None, None) == Ok::<SecretView<Seq<char>>, ErrorView>(
            SecretView::Token(env[Defaults::Token]->Ok_0),
        ),
{
}

/// A port given as argument is laid over the host that the host variable
/// writes: the profile's host is that URL with the port replaced, and what the
/// port variable holds plays no part.
pub proof fn lemma_port_argument_overlays(
    env: Map<Defaults, Result<Seq<char>, Seq<char>>>,
    username: Option<Seq<char>>,
    token: Option<Seq<char>>,
    pwd: Option<Seq<char>>,
    port: u16,
)
    requires
        resolved(env, username, token, pwd, None, Some(port)) is Ok,
    ensures
        env[Defaults::Host] is Ok,
        url_parse(env[Defaults::Host]->Ok_0) is Some,
        overlay(url_parse(env[Defaults::Host]->Ok_0)->0, port) == Some(
            resolved(env, username, token, pwd, None, Some(port))->Ok_0.host,
        ),
{
}

/// A port variable whose text writes no port counts as one without a text: it
/// changes nothing and is no error.
pub proof fn lemma_port_variable_may_be_wrong(
    env: Map<Defaults, Result<Seq<char>, Seq<char>>>,
    username: Option<Seq<char>>,
    token: Option<Seq<char>>,
    pwd: Option<Seq<char>>,
    host: Option<Seq<char>>,
    port: Option<u16>,
)
    requires
        env[Defaults::Port] matches Ok(text) && port_of(text) is None,
    ensures
        resolved(env, username, token, pwd, host, port) == resolved(
            env.insert(Defaults::Port, unset()),
            username,
            token,
            pwd,
            host,
            port,
        ),
{
}

/// Without a username, given or set, resolution fails on the username, with
/// the reason its variable gives, whatever else is missing or wrong.
pub proof fn lemma_username_comes_first(
    env: Map<Defaults, Result<Seq<char>, Seq<char>>>,
    token: Option<Seq<char>>,
    pwd: Option<Seq<char>>,
    host: Option<Seq<char>>,
    port: Option<u16>,
)
    requires
        env[Defaults::Username] is Err,
    ensures
        resolved(env, None, token, pwd, host, port) == Err::<ProfileView, ErrorView>(
            ErrorView {
                kind: ErrorKind::Environment(Defaults::Username),
                message: env[Defaults::Username]->Err_0,
            },
        ),
{
}

} // verus!
