//! The seed store's logic: deciding, from what (if anything) is stored on
//! disk, whether to load the existing mnemonic seed phrase, generate a fresh
//! one, or fail on unparsable contents. Reading and writing the seed file
//! itself is the shell's job; this module only works on the file's contents.

use std::str::FromStr;
use vstd::prelude::*;

verus! {

/// Whether a phrase is a valid BIP-39 mnemonic sentence, that is, whether
/// bip39's parser accepts it. The outcome depends on the characters alone.
pub uninterp spec fn valid_phrase(s: Seq<char>) -> bool;

/// A mnemonic seed phrase, held in its textual form. Every `Seed` holds a
/// phrase that bip39's parser accepts.
#[derive(Clone, PartialEq, Eq, Debug)]
pub struct Seed {
    phrase: String,
}

impl View for Seed {
    type V = Seq<char>;

    closed spec fn view(&self) -> Seq<char> {
        self.phrase@
    }
}

impl Seed {
    /// The phrase is a valid mnemonic sentence.
    pub open spec fn wf(&self) -> bool {
        valid_phrase(self@)
    }

    /// The phrase's textual form, as persisted to and read from disk.
    pub fn phrase(&self) -> (r: &str)
        ensures
            r@ == self@,
    {
        self.phrase.as_str()
    }
}

/// Relies on bip39's `Mnemonic::from_str`: whether a phrase parses as a
/// mnemonic depends on the phrase's characters alone (the word lists are
/// compiled into the crate).
#[verifier::external_body]
fn phrase_is_valid(s: &str) -> (r: bool)
    ensures
        r == valid_phrase(s@),
{
    bip39::Mnemonic::from_str(s).is_ok()
}

/// Relies on bip39's `Mnemonic::generate_in` and its `Display` impl: a
/// freshly generated 12-word mnemonic, written out as its space-separated
/// word sequence, is accepted back by `Mnemonic::from_str` (every word comes
/// from the word list and the checksum holds by construction).
#[verifier::external_body]
pub fn generate_mnemonic() -> (r: Seed)
    ensures
        r.wf(),
{
    let m = bip39::Mnemonic::generate_in(bip39::Language::English, bip39::WordCount::Words12)
        .expect("twelve words is a supported mnemonic length");
    Seed { phrase: m.to_string() }
}

/// What the seed store decides for given stored file contents.
pub enum SeedDecision {
    /// A valid phrase is stored: load it.
    Load,
    /// Nothing is stored: generate a fresh phrase.
    Generate,
    /// The stored contents do not parse as a mnemonic: fail.
    Reject,
}

/// The seed store's decision as a function of the stored contents.
pub open spec fn seed_decision(stored: Option<Seq<char>>) -> SeedDecision {
    match stored {
        Option::Some(s) => if valid_phrase(s) {
            SeedDecision::Load
        } else {
            SeedDecision::Reject
        },
        Option::None => SeedDecision::Generate,
    }
}

/// Outcome of resolving the seed at wallet-session creation.
#[derive(Clone, PartialEq, Eq, Debug)]
pub enum SeedSetup {
    /// The stored phrase parsed; the session uses it unchanged.
    Loaded(Seed),
    /// Nothing was stored; a fresh phrase was generated and the caller must
    /// persist it.
    Generated(Seed),
    /// The stored contents do not parse as a mnemonic. The design treats
    /// this as fatal; no recovery is attempted.
    Corrupt,
}

/// Resolve the seed from the stored file contents (`None` when no seed file
/// exists): load a valid stored phrase as it is, generate a fresh one when
/// nothing is stored, and reject unparsable contents.
pub fn ensure_seed(stored: Option<String>) -> (r: SeedSetup)
    ensures
        match stored {
            Option::Some(s) => {
                &&& valid_phrase(s@) ==> (r matches SeedSetup::Loaded(seed) && seed@ == s@)
                &&& !valid_phrase(s@) ==> r is Corrupt
            },
            Option::None => r matches SeedSetup::Generated(seed) && seed.wf(),
        },
        (r is Loaded) <==> seed_decision(stored_view(stored)) is Load,
        (r is Generated) <==> seed_decision(stored_view(stored)) is Generate,
        (r is Corrupt) <==> seed_decision(stored_view(stored)) is Reject,
{
    match stored {
        Option::Some(s) => {
            if phrase_is_valid(s.as_str()) {
                SeedSetup::Loaded(Seed { phrase: s })
            } else {
                SeedSetup::Corrupt
            }
        },
        Option::None => SeedSetup::Generated(generate_mnemonic()),
    }
}

/// View of the stored file contents.
pub open spec fn stored_view(stored: Option<String>) -> Option<Seq<char>> {
    match stored {
        Option::Some(s) => Option::Some(s@),
        Option::None => Option::None,
    }
}

/// Law: the seed persists round trip. Saving a generated (hence valid)
/// phrase and loading it back loads that very phrase, and loading when
/// nothing is stored leads to generation, never to rejection.
pub proof fn lemma_seed_round_trip(phrase: Seq<char>)
    requires
        valid_phrase(phrase),
    ensures
        seed_decision(Option::Some(phrase)) is Load,
        seed_decision(Option::<Seq<char>>::None) is Generate,
{
}

} // verus!
