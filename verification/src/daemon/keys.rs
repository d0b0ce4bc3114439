//! Which of the daemon's keys sign, and which one authorizes it to its
//! peers.

use vstd::prelude::*;
use vstd::string::StringExecFns;
use crate::daemon::error::UserError;
use crate::daemon::error::UserErrorView;
use crate::text::str_eq;

verus! {

/// The name of a file in the key directory, in two parts: the stem, and the
/// extension after the last dot. A part that the file name lacks, or that is
/// not text, is `None`.
#[derive(Debug, Clone, PartialEq, Eq)]
pub struct KeyFileName {
    pub stem: Option<String>,
    pub extension: Option<String>,
}

/// What to do with a file of the key directory.
#[derive(Debug, Clone, Copy, PartialEq, Eq, Structural)]
pub enum KeyAction {
    /// The file holds the peering key: load it, put it before the other
    /// signing keys, and take the peer token from it.
    LoadPeeringKey,
    /// The file holds another signing key: load it and put it after the
    /// keys loaded so far.
    LoadKey,
    /// The file holds no private key; its stem is the last known key name.
    Skip,
}

/// What an optional text holds, as characters.
pub open spec fn part_view(part: Option<String>) -> Option<Seq<char>> {
    match part {
        Some(text) => Some(text@),
        None => None,
    }
}

/// Whether a file is a private key file: whether its extension is `priv`.
pub open spec fn is_private_key_file(extension: Option<Seq<char>>) -> bool {
    extension == Some("priv"@)
}

/// What is done with a file of these name parts when the peering key is
/// named `peering_key`; `None` for a file without a private key whose stem
/// cannot be had.
pub open spec fn key_action(
    stem: Option<Seq<char>>,
    extension: Option<Seq<char>>,
    peering_key: Seq<char>,
) -> Option<KeyAction> {
    if is_private_key_file(extension) {
        if stem == Some(peering_key) {
            Some(KeyAction::LoadPeeringKey)
        } else {
            Some(KeyAction::LoadKey)
        }
    } else if stem is Some {
        Some(KeyAction::Skip)
    } else {
        None
    }
}

/// Decides what to do with one file of the key directory.
pub fn classify_key_file(name: &KeyFileName, peering_key: &str) -> (action: Result<
    KeyAction,
    UserError,
>)
    ensures
        match action {
            Ok(found) => key_action(part_view(name.stem), part_view(name.extension), peering_key@)
                == Some(found),
            Err(err) => {
                &&& key_action(part_view(name.stem), part_view(name.extension), peering_key@)
                    is None
                &&& err@ == UserErrorView::InternalError("Unable to get file name"@)
            },
        },
{
    let private = match &name.extension {
        Some(extension) => str_eq(extension.as_str(), "priv"),
        None => false,
    };
    if private {
        let peering = match &name.stem {
            Some(stem) => str_eq(stem.as_str(), peering_key),
            None => false,
        };
        if peering {
            Ok(KeyAction::LoadPeeringKey)
        } else {
            Ok(KeyAction::LoadKey)
        }
    } else {
        match &name.stem {
            Some(_) => Ok(KeyAction::Skip),
            None => Err(UserError::internal("Unable to get file name")),
        }
    }
}

/// Which key the peer token is taken from.
#[derive(Debug, Clone, Copy, PartialEq, Eq, Structural)]
pub enum TokenKey {
    /// The peering key, which was found.
    Peering,
    /// The only signing key there is, the peering key not having been
    /// found.
    Only,
}

/// The message of the error for a key directory without a signing key.
pub open spec fn no_signing_key_message() -> Seq<char> {
    "Must have a signing key for challenge authorization, run the `splinter keygen --system` command to generate a key for the daemon"@
}

/// The message of the error for a key directory with several signing keys,
/// none of which is the peering key.
pub open spec fn undecided_key_message(peering_key: Seq<char>) -> Seq<char> {
    "Unable to decide which key to use for required authorization for provided peers. Peering key "@
        + peering_key + " was not found and there are more then one configured signing key"@
}

/// Decides which key the peer token is taken from, once the key directory
/// has been read: `signing_keys` keys were loaded, and `peering_found` says
/// whether the peering key was among them.
pub fn choose_token_key(signing_keys: usize, peering_found: bool, peering_key: &str) -> (chosen:
    Result<TokenKey, UserError>)
    ensures
        signing_keys == 0 ==> chosen is Err && chosen->Err_0@ == UserErrorView::InternalError(
            no_signing_key_message(),
        ),
        signing_keys > 0 && peering_found ==> chosen == Ok::<TokenKey, UserError>(
            TokenKey::Peering,
        ),
        signing_keys == 1 && !peering_found ==> chosen == Ok::<TokenKey, UserError>(
            TokenKey::Only,
        ),
        signing_keys > 1 && !peering_found ==> chosen is Err && chosen->Err_0@
            == UserErrorView::InternalError(undecided_key_message(peering_key@)),
{
    if signing_keys == 0 {
        Err(
            UserError::internal(
                "Must have a signing key for challenge authorization, run the `splinter keygen --system` command to generate a key for the daemon",
            ),
        )
    } else if peering_found {
        Ok(TokenKey::Peering)
    } else if signing_keys == 1 {
        Ok(TokenKey::Only)
    } else {
        let mut message = String::from_str(
            "Unable to decide which key to use for required authorization for provided peers. Peering key ",
        );
        message.append(peering_key);
        message.append(" was not found and there are more then one configured signing key");
        Err(UserError::InternalError(crate::error::InternalError::with_message(message)))
    }
}

} // verus!
