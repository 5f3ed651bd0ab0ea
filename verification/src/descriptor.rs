//! Which descriptors the wallet library can read.
//!
//! Reading a descriptor that is not well formed fails, and that is that. But there are well
//! formed ones that the parser aborts the program on: those that pay to the witness hash of an
//! uncompressed key, and those with a private key whose hardened steps lead deeper than a key
//! can lie.
use vstd::prelude::*;

use bdk::miniscript::ForEachKey;
use bdk::miniscript::MiniscriptKey;

use crate::text::{
    chars_of, first_of, lemma_first_of_absent, lemma_first_of_bounds, lemma_first_of_next,
    position_of, starts_with, text_of, texts_of,
};

verus! {

// ---------------------------------------------------------------------------------------------
// Keys
// ---------------------------------------------------------------------------------------------

/// A private key in a descriptor.
#[derive(Debug, PartialEq, Eq)]
pub enum SecretKey {
    /// A single key.
    Single { compressed: bool },
    /// An extended key at a depth, with a path of steps from there, each hardened or not; a
    /// wildcard at the end is no step.
    Extended { depth: u8, hardened: Vec<bool> },
}

/// A [`SecretKey`] with its path as a sequence.
pub enum SecretKeyView {
    Single { compressed: bool },
    Extended { depth: u8, hardened: Seq<bool> },
}

impl View for SecretKey {
    type V = SecretKeyView;

    open spec fn view(&self) -> SecretKeyView {
        match *self {
            SecretKey::Single { compressed } => SecretKeyView::Single { compressed },
            SecretKey::Extended { depth, hardened } => SecretKeyView::Extended {
                depth,
                hardened: hardened@,
            },
        }
    }
}

/// The view of a private key that may be absent.
pub open spec fn secret_view(key: Option<SecretKey>) -> Option<SecretKeyView> {
    match key {
        Some(k) => Some(k@),
        None => None,
    }
}

/// The private key that a text is, if it is one.
pub uninterp spec fn secret_key(text: Seq<char>) -> Option<SecretKeyView>;

/// `bdk::miniscript::descriptor::DescriptorSecretKey::from_str`, with what of the key counts
/// here.
///
/// Trusted: the outcome depends on the text alone.
#[verifier::external_body]
fn read_secret_key(text: &str) -> (key: Option<SecretKey>)
    ensures
        secret_view(key) == secret_key(text@),
{
    match text.parse::<bdk::miniscript::descriptor::DescriptorSecretKey>().ok()? {
        bdk::miniscript::descriptor::DescriptorSecretKey::SinglePriv(single) => Some(
            SecretKey::Single { compressed: single.key.compressed },
        ),
        bdk::miniscript::descriptor::DescriptorSecretKey::XPrv(extended) => Some(
            SecretKey::Extended {
                depth: extended.xkey.depth,
                hardened: extended.derivation_path.into_iter().map(|s| s.is_hardened()).collect(),
            },
        ),
    }
}

/// Whether the public key that a text is, if it is one, is uncompressed.
pub uninterp spec fn public_key(text: Seq<char>) -> Option<bool>;

/// `bdk::miniscript::DescriptorPublicKey::from_str`, with whether the key is uncompressed.
///
/// Trusted: the outcome depends on the text alone.
#[verifier::external_body]
fn read_public_key(text: &str) -> (uncompressed: Option<bool>)
    ensures
        uncompressed == public_key(text@),
{
    text.parse::<bdk::miniscript::DescriptorPublicKey>().ok().map(|key| key.is_uncompressed())
}

/// What comes of reading a key.
#[derive(Debug, Clone, Copy, PartialEq, Eq, Structural)]
pub enum Reading {
    /// The text is no key.
    Malformed,
    /// The hardened steps lead too deep.
    TooDeep,
    /// The text is a key.
    Key { uncompressed: bool },
}

/// How many steps of a path there are up to the last hardened one: these are taken on the
/// private key.
pub open spec fn private_steps(hardened: Seq<bool>) -> nat
    decreases hardened.len(),
{
    if hardened.len() == 0 || hardened.last() {
        hardened.len()
    } else {
        private_steps(hardened.drop_last())
    }
}

/// What comes of reading a key: it is taken for a private one where it can be. No key lies
/// deeper than 255: there the count of the parser overflows, which aborts a program that checks
/// for that.
pub open spec fn key_reading(text: Seq<char>) -> Reading {
    match secret_key(text) {
        Some(SecretKeyView::Single { compressed }) => Reading::Key { uncompressed: !compressed },
        Some(SecretKeyView::Extended { depth, hardened }) => if depth + private_steps(hardened)
            > 255 {
            Reading::TooDeep
        } else {
            Reading::Key { uncompressed: false }
        },
        None => match public_key(text) {
            Some(uncompressed) => Reading::Key { uncompressed },
            None => Reading::Malformed,
        },
    }
}

fn private_steps_of(hardened: &Vec<bool>) -> (n: usize)
    ensures
        n == private_steps(hardened@),
{
    let mut n: usize = hardened.len();
    assert(hardened@.take(n as int) =~= hardened@);
    while n > 0 && !hardened[n - 1]
        invariant
            n <= hardened.len(),
            private_steps(hardened@) == private_steps(hardened@.take(n as int)),
        decreases n,
    {
        assert(hardened@.take(n as int).drop_last() =~= hardened@.take(n - 1));
        n = n - 1;
    }
    n
}

/// Reads a key.
pub fn read_key(text: &str) -> (reading: Reading)
    ensures
        reading == key_reading(text@),
{
    match read_secret_key(text) {
        Some(SecretKey::Single { compressed }) => Reading::Key { uncompressed: !compressed },
        Some(SecretKey::Extended { depth, hardened }) => {
            let steps: usize = private_steps_of(&hardened);
            if steps > 255 - depth as usize {
                Reading::TooDeep
            } else {
                Reading::Key { uncompressed: false }
            }
        },
        None => match read_public_key(text) {
            Some(uncompressed) => Reading::Key { uncompressed },
            None => Reading::Malformed,
        },
    }
}

// ---------------------------------------------------------------------------------------------
// Descriptors
// ---------------------------------------------------------------------------------------------

/// The texts of keys that may be absent.
pub open spec fn key_texts(keys: Option<Vec<String>>) -> Option<Seq<Seq<char>>> {
    match keys {
        Some(list) => Some(texts_of(list@)),
        None => None,
    }
}

/// The texts that stand for keys in a well formed descriptor: those in scripts from the left to
/// the right, and the internal key of a taproot output after all others.
pub uninterp spec fn descriptor_keys(body: Seq<char>) -> Option<Seq<Seq<char>>>;

/// Adds a key to a list, and asks for more.
fn note_key(keys: &mut Vec<String>, key: &String) -> (more: bool)
    ensures
        final(keys)@ == old(keys)@.push(*key),
        more,
{
    keys.push(key.clone());
    true
}

/// `bdk::miniscript::Descriptor::<String>::from_str`, then `ForEachKey::for_each_key` on what
/// came of it: the texts that stand for keys, in the order in which they are visited.
///
/// Trusted: the outcome depends on the text alone.
#[verifier::external_body]
fn read_descriptor_keys(body: &str) -> (keys: Option<Vec<String>>)
    ensures
        key_texts(keys) == descriptor_keys(body@),
{
    let descriptor = body.parse::<bdk::miniscript::Descriptor<String>>().ok()?;
    let mut keys: Vec<String> = Vec::new();
    descriptor.for_each_key(|key| note_key(&mut keys, key.as_key()));
    Some(keys)
}

/// The keys of a descriptor in the order in which they are read: the internal key of a taproot
/// output comes first.
pub open spec fn reading_order(body: Seq<char>, keys: Seq<Seq<char>>) -> Seq<Seq<char>> {
    if "tr("@.is_prefix_of(body) && keys.len() > 0 {
        seq![keys.last()] + keys.drop_last()
    } else {
        keys
    }
}

/// Whether a descriptor pays to the witness hash of a key.
pub open spec fn pays_to_witness_hash(body: Seq<char>) -> bool {
    "wpkh("@.is_prefix_of(body) || "sh(wpkh("@.is_prefix_of(body)
}

/// Whether reading keys one after the other aborts the program: it does at one that lies too
/// deep, and at an uncompressed one where that is forbidden, unless it has failed before.
pub open spec fn keys_abort(keys: Seq<Seq<char>>, compressed_only: bool) -> bool
    decreases keys.len(),
{
    keys.len() > 0 && match key_reading(keys[0]) {
        Reading::Malformed => false,
        Reading::TooDeep => true,
        Reading::Key { uncompressed } => uncompressed && compressed_only || keys_abort(
            keys.skip(1),
            compressed_only,
        ),
    }
}

/// The checksum of a descriptor, if it consists of characters that have one.
pub uninterp spec fn descriptor_checksum(body: Seq<char>) -> Option<Seq<char>>;

/// `bdk::descriptor::get_checksum`.
///
/// Trusted: the outcome depends on the text alone.
#[verifier::external_body]
fn get_checksum(body: &str) -> (checksum: Option<String>)
    ensures
        text_of(checksum) == descriptor_checksum(body@),
{
    bdk::descriptor::get_checksum(body).ok()
}

/// A descriptor without the checksum behind `#`, unless that is wrong.
pub open spec fn checked_body(text: Seq<char>) -> Option<Seq<char>> {
    let end = first_of(text, '#');
    if end == text.len() {
        Some(text)
    } else if descriptor_checksum(text.take(end)) == Some(text.skip(end + 1)) {
        Some(text.take(end))
    } else {
        None
    }
}

/// Whether reading a descriptor comes to an end, good or bad, and does not abort the program.
pub open spec fn readable(text: Seq<char>) -> bool {
    match checked_body(text) {
        Some(body) => match descriptor_keys(body) {
            Some(keys) => !keys_abort(reading_order(body, keys), pays_to_witness_hash(body)),
            None => true,
        },
        None => true,
    }
}

fn do_keys_abort(keys: &Vec<String>, compressed_only: bool) -> (r: bool)
    ensures
        r == keys_abort(texts_of(keys@), compressed_only),
{
    let ghost texts = texts_of(keys@);
    let mut i: usize = 0;
    assert(texts.skip(0) =~= texts);
    while i < keys.len()
        invariant
            i <= keys.len(),
            texts == texts_of(keys@),
            keys_abort(texts, compressed_only) == keys_abort(texts.skip(i as int), compressed_only),
        decreases keys.len() - i,
    {
        assert(texts.skip(i as int).skip(1) =~= texts.skip(i + 1));
        match read_key(keys[i].as_str()) {
            Reading::Malformed => {
                return false;
            },
            Reading::TooDeep => {
                return true;
            },
            Reading::Key { uncompressed } => if uncompressed && compressed_only {
                return true;
            },
        }
        i = i + 1;
    }
    false
}

fn body_of(text: &str) -> (body: Option<String>)
    ensures
        text_of(body) == checked_body(text@),
{
    let chars = chars_of(text);
    proof {
        lemma_first_of_bounds(text@, '#');
    }
    let end: usize = position_of(&chars, '#');
    if end == chars.len() {
        return Some(text.to_string());
    }
    let body = text.substring_char(0, end);
    let given = text.substring_char(end + 1, chars.len()).to_string();
    assert(body@ =~= text@.take(end as int));
    assert(given@ =~= text@.skip(end + 1));
    match get_checksum(body) {
        Some(checksum) => if checksum == given {
            Some(body.to_string())
        } else {
            None
        },
        None => None,
    }
}

/// Whether reading a descriptor comes to an end, good or bad, and does not abort the program.
pub fn is_readable(text: &str) -> (r: bool)
    ensures
        r == readable(text@),
{
    let body = match body_of(text) {
        Some(body) => body,
        None => {
            return true;
        },
    };
    let mut keys = match read_descriptor_keys(body.as_str()) {
        Some(keys) => keys,
        None => {
            return true;
        },
    };
    let ghost visited = texts_of(keys@);
    let chars = chars_of(body.as_str());
    if starts_with(&chars, "tr(") {
        if let Some(internal) = keys.pop() {
            keys.insert(0, internal);
            assert(texts_of(keys@) =~= seq![visited.last()] + visited.drop_last());
        }
    }
    assert(texts_of(keys@) =~= reading_order(body@, visited));
    let compressed_only = starts_with(&chars, "wpkh(") || starts_with(&chars, "sh(wpkh(");
    !do_keys_abort(&keys, compressed_only)
}

// ---------------------------------------------------------------------------------------------
// Laws
// ---------------------------------------------------------------------------------------------

/// The steps taken on a private key end with a hardened one, and none of those behind them is
/// hardened.
pub proof fn law_private_steps_end_with_the_last_hardened_one(hardened: Seq<bool>)
    ensures
        private_steps(hardened) <= hardened.len(),
        private_steps(hardened) > 0 ==> hardened[private_steps(hardened) - 1],
        forall|i: int| private_steps(hardened) <= i < hardened.len() ==> !#[trigger] hardened[i],
    decreases hardened.len(),
{
    if hardened.len() > 0 && !hardened.last() {
        let front = hardened.drop_last();
        law_private_steps_end_with_the_last_hardened_one(front);
        assert forall|i: int| private_steps(hardened) <= i < hardened.len() implies !#[trigger]
            hardened[i] by {
            if i < front.len() {
                assert(front[i] == hardened[i]);
            }
        }
    }
}

/// What is no key at all is malformed, what is a private key is never taken for a public one,
/// and a key lies too deep exactly where its private steps lead below a depth of 255.
pub proof fn law_key_is_read_as_what_it_is(text: Seq<char>)
    ensures
        key_reading(text) is Malformed <==> secret_key(text) is None && public_key(text) is None,
        key_reading(text) is TooDeep <==> secret_key(text) is Some && secret_key(text)->0
            is Extended && secret_key(text)->0->depth + private_steps(
            secret_key(text)->0->hardened,
        ) >= 256,
        key_reading(text) is Key ==> (key_reading(text)->uncompressed <==> (secret_key(text)
            is Some && secret_key(text)->0 is Single && !secret_key(text)->0->compressed) || (
        secret_key(text) is None && public_key(text) == Some(true))),
{
}

/// Reading keys aborts exactly at a key that lies too deep, or is uncompressed where that is
/// forbidden, and that no malformed key stands before.
pub proof fn law_reading_aborts_at_the_first_bad_key(keys: Seq<Seq<char>>, compressed_only: bool)
    ensures
        keys_abort(keys, compressed_only) <==> exists|i: int|
            0 <= i < keys.len() && aborts_at(keys, compressed_only, i),
    decreases keys.len(),
{
    if keys.len() > 0 {
        let rest = keys.skip(1);
        law_reading_aborts_at_the_first_bad_key(rest, compressed_only);
        if keys_abort(keys, compressed_only) {
            if aborts_at(keys, compressed_only, 0) {
            } else {
                let i = choose|i: int| 0 <= i < rest.len() && aborts_at(rest, compressed_only, i);
                assert(rest[i] == keys[i + 1]);
                assert forall|j: int| 0 <= j < i + 1 implies key_reading(#[trigger] keys[j])
                    !is Malformed by {
                    if j > 0 {
                        assert(rest[j - 1] == keys[j]);
                    }
                }
                assert(aborts_at(keys, compressed_only, i + 1));
            }
        }
        if exists|i: int| 0 <= i < keys.len() && aborts_at(keys, compressed_only, i) {
            let i = choose|i: int| 0 <= i < keys.len() && aborts_at(keys, compressed_only, i);
            if i > 0 {
                assert(key_reading(keys[0]) !is Malformed);
                assert(rest[i - 1] == keys[i]);
                assert forall|j: int| 0 <= j < i - 1 implies key_reading(#[trigger] rest[j])
                    !is Malformed by {
                    assert(rest[j] == keys[j + 1]);
                }
                assert(aborts_at(rest, compressed_only, i - 1));
            }
        }
    }
}

/// Whether reading keys gets to one and aborts there.
pub open spec fn aborts_at(keys: Seq<Seq<char>>, compressed_only: bool, i: int) -> bool {
    &&& key_reading(keys[i]) is TooDeep || (compressed_only && key_reading(keys[i]) is Key
        && key_reading(keys[i])->uncompressed)
    &&& forall|j: int| 0 <= j < i ==> key_reading(#[trigger] keys[j]) !is Malformed
}

/// Keys are read in the order in which they are visited, but for the internal key of a taproot
/// output, which is visited last and read first.
pub proof fn law_internal_key_is_read_first(body: Seq<char>, keys: Seq<Seq<char>>)
    ensures
        reading_order(body, keys).len() == keys.len(),
        !"tr("@.is_prefix_of(body) ==> reading_order(body, keys) == keys,
        "tr("@.is_prefix_of(body) && keys.len() > 0 ==> reading_order(body, keys)[0] == keys.last(),
        "tr("@.is_prefix_of(body) ==> forall|i: int|
            0 < i < keys.len() ==> #[trigger] reading_order(body, keys)[i] == keys[i - 1],
{
}

/// A descriptor can be read where none of its keys lies too deep and none is uncompressed; an
/// uncompressed one does no harm unless the descriptor pays to the witness hash of a key, alone
/// or inside a script hash.
pub proof fn law_descriptors_without_bad_keys_are_readable(text: Seq<char>, keys: Seq<Seq<char>>)
    requires
        checked_body(text) is Some,
        descriptor_keys(checked_body(text)->0) == Some(keys),
        forall|i: int| 0 <= i < keys.len() ==> key_reading(#[trigger] keys[i]) !is TooDeep,
        forall|i: int|
            0 <= i < keys.len() && key_reading(#[trigger] keys[i]) is Key && key_reading(
                keys[i],
            )->uncompressed ==> !"wpkh("@.is_prefix_of(checked_body(text)->0)
                && !"sh(wpkh("@.is_prefix_of(checked_body(text)->0),
    ensures
        readable(text),
{
    let body = checked_body(text)->0;
    let order = reading_order(body, keys);
    law_internal_key_is_read_first(body, keys);
    law_reading_aborts_at_the_first_bad_key(order, pays_to_witness_hash(body));
    if keys_abort(order, pays_to_witness_hash(body)) {
        let i = choose|i: int|
            0 <= i < order.len() && aborts_at(order, pays_to_witness_hash(body), i);
        if "tr("@.is_prefix_of(body) {
            if i == 0 {
                assert(order[i] == keys[keys.len() - 1]);
            } else {
                assert(order[i] == keys[i - 1]);
            }
        } else {
            assert(order[i] == keys[i]);
        }
    }
}

/// A descriptor with a wrong checksum, or that is not well formed, can be read: it is refused.
/// Without `#` there is no checksum to be wrong.
pub proof fn law_refused_descriptors_are_readable(text: Seq<char>)
    ensures
        checked_body(text) is None ==> readable(text),
        checked_body(text) is Some && descriptor_keys(checked_body(text)->0) is None ==> readable(
            text,
        ),
        !text.contains('#') ==> checked_body(text) == Some(text),
{
    if !text.contains('#') {
        lemma_first_of_absent(text, '#');
    }
}

/// A descriptor with a checksum behind `#` is read without it where the checksum is the right
/// one, and refused where it is another.
pub proof fn law_checksum_must_be_right(body: Seq<char>, checksum: Seq<char>)
    requires
        !body.contains('#'),
    ensures
        descriptor_checksum(body) == Some(checksum) ==> checked_body(
            body + seq!['#'] + checksum,
        ) == Some(body),
        descriptor_checksum(body) != Some(checksum) ==> checked_body(
            body + seq!['#'] + checksum,
        ) is None,
{
    let text = body + seq!['#'] + checksum;
    lemma_first_of_next(body, '#', checksum);
    assert(text.take(body.len() as int) =~= body);
    assert(text.skip(body.len() as int + 1) =~= checksum);
}

} // verus!
