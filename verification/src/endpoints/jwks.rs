//! The key set: the public key against which clients verify the broker's
//! ID tokens.

use vstd::prelude::*;
use vstd::string::StringExecFns;
use crate::consts::get_secret;
use crate::consts::Secret;
use crate::consts::Secrets;
use crate::text::strings_view;

verus! {

/// The broker's key set. Each key is a JWK as JSON text.
#[derive(Debug, Clone, PartialEq, Eq)]
pub struct JwkSet {
    pub keys: Vec<String>,
}

impl View for JwkSet {
    type V = Seq<Seq<char>>;

    open spec fn view(&self) -> Seq<Seq<char>> {
        strings_view(self.keys@)
    }
}

/// Makes the broker's key set: the one public signing key.
pub fn jwks(secrets: &Secrets) -> (set: JwkSet)
    ensures
        set@ == seq![secrets@[Secret::JWK_PUBLIC.spec_index()]],
{
    let mut keys: Vec<String> = Vec::new();
    keys.push(String::from_str(get_secret(secrets, Secret::JWK_PUBLIC)));
    assert(strings_view(keys@) =~= seq![secrets@[Secret::JWK_PUBLIC.spec_index()]]);
    JwkSet { keys }
}

} // verus!
