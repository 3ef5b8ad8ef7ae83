//! Verifier parameters: the stage-specific data needed to check a receipt's
//! integrity. A parameter object is a pure function of the stage and the set
//! of allowed control identifiers: it holds the hash suite of the stage's
//! field and a control root formed by reducing a canonical balanced hashing
//! tree over the allowed control identifiers, plus an optional inner control
//! root when the stage nests another stage's proof.

use vstd::prelude::*;
use crate::digest::Digest;
use crate::errors::ErrorKind;
use crate::receipt::ReceiptStage;

verus! {

/// Depth of the balanced aggregation tree over control identifiers. The
/// backend commits to allowed control identifiers at this fixed depth.
pub const AGGREGATION_DEPTH: u32 = 8;

/// Number of leaves of the aggregation tree.
pub const AGGREGATION_LEAVES: usize = 256;

/// Most control identifiers one aggregation accepts (the backend rejects a
/// group that fills every leaf).
pub const MAX_CONTROL_IDS: usize = 255;

/// The hash function family used for a field's commitments.
#[derive(Clone, Copy, Debug, PartialEq, Eq, Structural)]
pub enum HashSuiteKind {
    /// Hashing over the native field of the recursion circuit.
    Poseidon2,
    /// Hashing over the target verification field, used after the identity
    /// transform.
    Poseidon254,
}

/// Which hash suites are registered with the verifier. Building parameters
/// for a stage whose field has no registered suite is a configuration error.
#[derive(Clone, Copy, Debug, PartialEq, Eq, Structural)]
pub struct SuiteRegistry {
    /// The suite over the recursion circuit's native field is registered.
    pub poseidon2: bool,
    /// The suite over the target verification field is registered.
    pub poseidon254: bool,
}

impl SuiteRegistry {
    /// Whether the given suite is registered.
    pub open spec fn spec_has(self, kind: HashSuiteKind) -> bool {
        match kind {
            HashSuiteKind::Poseidon2 => self.poseidon2,
            HashSuiteKind::Poseidon254 => self.poseidon254,
        }
    }

    /// A registry with every suite registered.
    pub fn with_all_suites() -> (r: SuiteRegistry)
        ensures
            r == (SuiteRegistry { poseidon2: true, poseidon254: true }),
    {
        SuiteRegistry { poseidon2: true, poseidon254: true }
    }

    /// Whether the given suite is registered.
    pub fn has(&self, kind: HashSuiteKind) -> (r: bool)
        ensures
            r == self.spec_has(kind),
    {
        match kind {
            HashSuiteKind::Poseidon2 => self.poseidon2,
            HashSuiteKind::Poseidon254 => self.poseidon254,
        }
    }
}

/// What the backend's hash over the recursion circuit's native field returns
/// for a pair of digests; a fixed function of the two digests alone.
pub uninterp spec fn poseidon2_hash_pair(a: Seq<u32>, b: Seq<u32>) -> Seq<u32>;

/// What the backend's hash over the target verification field returns for a
/// pair of digests; a fixed function of the two digests alone.
pub uninterp spec fn poseidon254_hash_pair(a: Seq<u32>, b: Seq<u32>) -> Seq<u32>;

/// The modulus of the recursion circuit's native field: every digest hashed
/// over that field must hold words below it.
pub const NATIVE_FIELD_MODULUS: u32 = 0x78000001;

/// Every word of the digest is a reduced element of the recursion circuit's
/// native field. The native-field hash asserts this of each input word and
/// writes only reduced words back.
pub open spec fn fits_native_field(d: Seq<u32>) -> bool {
    forall|i: int| 0 <= i < d.len() ==> (#[trigger] d[i]) < 0x78000001u32
}

/// Word `i` of the target verification field's modulus, in the digest's
/// little-endian word order.
pub open spec fn target_modulus_word(i: int) -> u32 {
    if i == 0 {
        0xF0000001u32
    } else if i == 1 {
        0x43E1F593u32
    } else if i == 2 {
        0x79B97091u32
    } else if i == 3 {
        0x2833E848u32
    } else if i == 4 {
        0x8181585Du32
    } else if i == 5 {
        0xB85045B6u32
    } else if i == 6 {
        0xE131A029u32
    } else {
        0x30644E72u32
    }
}

/// The digest's 256-bit value, read little-endian from its words, lies below
/// the target verification field's modulus: at the highest word where the
/// two differ, the digest's word is the smaller. The target-field hash
/// rejects any digest at or above the modulus and writes back a canonical
/// (reduced) encoding.
pub open spec fn fits_target_field(d: Seq<u32>) -> bool {
    exists|i: int|
        0 <= i < 8 && (#[trigger] d[i]) < target_modulus_word(i) && (forall|j: int|
            i < j < 8 ==> (#[trigger] d[j]) == target_modulus_word(j))
}

/// Whether a digest may stand at a leaf of the given suite's aggregation:
/// its words must encode an element the suite's field accepts.
pub open spec fn digest_fits(suite: HashSuiteKind, d: Seq<u32>) -> bool {
    match suite {
        HashSuiteKind::Poseidon2 => fits_native_field(d),
        HashSuiteKind::Poseidon254 => fits_target_field(d),
    }
}

/// Every identifier of the set fits the suite's field.
pub open spec fn all_fit(suite: HashSuiteKind, ids: Seq<Digest>) -> bool {
    forall|i: int| 0 <= i < ids.len() ==> digest_fits(suite, (#[trigger] ids[i])@)
}

/// Relies on risc0_zkp::core::hash::poseidon2::Poseidon2HashSuite::new_suite
/// and HashFn::hash_pair: the hash accepts exactly digests whose words are
/// reduced native-field elements (it asserts each word is below the
/// modulus), is deterministic, a function of the two digests alone, and
/// returns one digest of reduced words.
#[verifier::external_body]
fn hash_pair_poseidon2(a: &Digest, b: &Digest) -> (r: Digest)
    requires
        fits_native_field(a@),
        fits_native_field(b@),
    ensures
        r@ == poseidon2_hash_pair(a@, b@),
        r@.len() == 8,
        fits_native_field(r@),
{
    let suite = risc0_zkp::core::hash::poseidon2::Poseidon2HashSuite::new_suite();
    let left = risc0_zkp::core::digest::Digest::new(a.words);
    let right = risc0_zkp::core::digest::Digest::new(b.words);
    let out = suite.hashfn.hash_pair(&left, &right);
    let mut words = [0u32; 8];
    words.copy_from_slice(out.as_words());
    Digest { words }
}

/// Relies on risc0_zkp::core::hash::poseidon_254::Poseidon254HashSuite::new_suite
/// and HashFn::hash_pair: the hash accepts exactly digests whose 256-bit
/// value lies below the target field's modulus (it unwraps the conversion
/// into the field), is deterministic, a function of the two digests alone,
/// and returns one digest in the canonical encoding, itself below the
/// modulus.
#[verifier::external_body]
fn hash_pair_poseidon254(a: &Digest, b: &Digest) -> (r: Digest)
    requires
        fits_target_field(a@),
        fits_target_field(b@),
    ensures
        r@ == poseidon254_hash_pair(a@, b@),
        r@.len() == 8,
        fits_target_field(r@),
{
    let suite = risc0_zkp::core::hash::poseidon_254::Poseidon254HashSuite::new_suite();
    let left = risc0_zkp::core::digest::Digest::new(a.words);
    let right = risc0_zkp::core::digest::Digest::new(b.words);
    let out = suite.hashfn.hash_pair(&left, &right);
    let mut words = [0u32; 8];
    words.copy_from_slice(out.as_words());
    Digest { words }
}

/// Hashing a pair under the given suite.
pub open spec fn spec_hash_pair(suite: HashSuiteKind, a: Seq<u32>, b: Seq<u32>) -> Seq<u32> {
    match suite {
        HashSuiteKind::Poseidon2 => poseidon2_hash_pair(a, b),
        HashSuiteKind::Poseidon254 => poseidon254_hash_pair(a, b),
    }
}

/// The words of the all-zero digest that pads unused aggregation leaves.
pub open spec fn zero_digest_words() -> Seq<u32> {
    Seq::new(8, |i: int| 0u32)
}

/// The views of a sequence of digests.
pub open spec fn words_of(ids: Seq<Digest>) -> Seq<Seq<u32>> {
    ids.map(|i: int, d: Digest| d@)
}

/// Leaf `idx` of the aggregation tree: the control identifier at that index,
/// or the zero digest past the end.
pub open spec fn leaf_or_zero(leaves: Seq<Seq<u32>>, idx: int) -> Seq<u32> {
    if 0 <= idx < leaves.len() {
        leaves[idx]
    } else {
        zero_digest_words()
    }
}

/// Root of the subtree of `len` leaves starting at `start`: halve the range,
/// reduce both halves, hash the pair.
pub open spec fn spec_range_root(
    suite: HashSuiteKind,
    leaves: Seq<Seq<u32>>,
    start: int,
    len: nat,
) -> Seq<u32>
    decreases len,
{
    if len <= 1 {
        leaf_or_zero(leaves, start)
    } else {
        spec_hash_pair(
            suite,
            spec_range_root(suite, leaves, start, (len / 2) as nat),
            spec_range_root(suite, leaves, start + len / 2, (len / 2) as nat),
        )
    }
}

/// The aggregated control root over a set of allowed control identifiers:
/// the root of the canonical balanced tree of `AGGREGATION_LEAVES` leaves.
pub open spec fn spec_control_root(suite: HashSuiteKind, leaves: Seq<Seq<u32>>) -> Seq<u32> {
    spec_range_root(suite, leaves, 0, AGGREGATION_LEAVES as nat)
}

/// Checks that every word is a reduced native-field element.
fn fits_native(d: &Digest) -> (r: bool)
    ensures
        r == fits_native_field(d@),
{
    let mut i: usize = 0;
    while i < 8
        invariant
            i <= 8,
            forall|k: int| 0 <= k < i ==> (#[trigger] d@[k]) < 0x78000001u32,
        decreases 8 - i,
    {
        if d.words[i] >= NATIVE_FIELD_MODULUS {
            proof {
                assert(d@[i as int] >= 0x78000001u32);
            }
            return false;
        }
        i = i + 1;
    }
    true
}

/// Word `i` of the target field's modulus.
fn target_modulus(i: usize) -> (w: u32)
    requires
        i < 8,
    ensures
        w == target_modulus_word(i as int),
{
    if i == 0 {
        0xF0000001
    } else if i == 1 {
        0x43E1F593
    } else if i == 2 {
        0x79B97091
    } else if i == 3 {
        0x2833E848
    } else if i == 4 {
        0x8181585D
    } else if i == 5 {
        0xB85045B6
    } else if i == 6 {
        0xE131A029
    } else {
        0x30644E72
    }
}

/// Checks that the digest's value lies below the target field's modulus,
/// comparing word by word from the most significant down.
fn fits_target(d: &Digest) -> (r: bool)
    ensures
        r == fits_target_field(d@),
{
    let mut i: usize = 8;
    while i > 0
        invariant
            i <= 8,
            forall|j: int| i <= j < 8 ==> (#[trigger] d@[j]) == target_modulus_word(j),
        decreases i,
    {
        i = i - 1;
        let m = target_modulus(i);
        if d.words[i] < m {
            proof {
                assert(d@[i as int] < target_modulus_word(i as int));
            }
            return true;
        }
        if d.words[i] > m {
            proof {
                assert forall|k: int|
                    0 <= k < 8 && d@[k] < target_modulus_word(k) implies !(forall|j: int|
                    k < j < 8 ==> (#[trigger] d@[j]) == target_modulus_word(j)) by {
                    if k > i as int {
                        assert(d@[k] == target_modulus_word(k));
                    } else if k == i as int {
                        assert(d@[k] >= target_modulus_word(k));
                    } else {
                        assert(d@[i as int] != target_modulus_word(i as int));
                    }
                }
            }
            return false;
        }
        proof {
            assert(d@[i as int] == target_modulus_word(i as int));
        }
    }
    proof {
        assert forall|k: int| 0 <= k < 8 implies !(d@[k] < target_modulus_word(k)) by {
            assert(d@[k] == target_modulus_word(k));
        }
    }
    false
}

/// Checks that a digest fits the suite's field.
fn digest_fits_suite(suite: HashSuiteKind, d: &Digest) -> (r: bool)
    ensures
        r == digest_fits(suite, d@),
{
    match suite {
        HashSuiteKind::Poseidon2 => fits_native(d),
        HashSuiteKind::Poseidon254 => fits_target(d),
    }
}

/// Reduces the subtree of `len` leaves starting at `start`.
fn range_root(suite: HashSuiteKind, leaves: &Vec<Digest>, start: usize, len: usize) -> (r: Digest)
    requires
        1 <= len,
        start + len <= AGGREGATION_LEAVES,
        all_fit(suite, leaves@),
    ensures
        r@ == spec_range_root(suite, words_of(leaves@), start as int, len as nat),
        digest_fits(suite, r@),
    decreases len,
{
    if len == 1 {
        if start < leaves.len() {
            leaves[start]
        } else {
            let zero = Digest::new([0u32; 8]);
            proof {
                assert(zero@ =~= zero_digest_words());
                assert(fits_native_field(zero@));
                assert(zero@[7] < target_modulus_word(7));
                assert(fits_target_field(zero@));
            }
            zero
        }
    } else {
        let half = len / 2;
        let left = range_root(suite, leaves, start, half);
        let right = range_root(suite, leaves, start + half, half);
        match suite {
            HashSuiteKind::Poseidon2 => hash_pair_poseidon2(&left, &right),
            HashSuiteKind::Poseidon254 => hash_pair_poseidon254(&left, &right),
        }
    }
}

/// The parameter object used to check a receipt's integrity at one stage.
#[derive(Clone, Copy, Debug, PartialEq, Eq)]
pub struct VerifierParameters {
    /// Hash suite of the stage's field.
    pub suite: HashSuiteKind,
    /// Aggregated control root over the stage's allowed control identifiers.
    pub control_root: Digest,
    /// Control root nested inside the proof, when the stage re-expresses
    /// another stage's proof.
    pub inner_control_root: Option<Digest>,
}

/// The mathematical content of a parameter object.
pub struct ParamsModel {
    /// Hash suite of the stage's field.
    pub suite: HashSuiteKind,
    /// Words of the aggregated control root.
    pub control_root: Seq<u32>,
    /// Words of the nested control root, if any.
    pub inner_control_root: Option<Seq<u32>>,
}

impl View for VerifierParameters {
    type V = ParamsModel;

    open spec fn view(&self) -> ParamsModel {
        ParamsModel {
            suite: self.suite,
            control_root: self.control_root@,
            inner_control_root: match self.inner_control_root {
                Some(d) => Some(d@),
                None => None,
            },
        }
    }
}

/// The hash suite that checks receipts of the given stage.
pub open spec fn suite_for(stage: ReceiptStage) -> HashSuiteKind {
    match stage {
        ReceiptStage::TargetField => HashSuiteKind::Poseidon254,
        _ => HashSuiteKind::Poseidon2,
    }
}

/// The parameter object owed for a stage, a set of allowed control
/// identifiers and a nested root: a pure function of its arguments.
pub open spec fn spec_verifier_parameters(
    stage: ReceiptStage,
    ids: Seq<Seq<u32>>,
    inner: Option<Seq<u32>>,
) -> ParamsModel {
    ParamsModel {
        suite: suite_for(stage),
        control_root: spec_control_root(suite_for(stage), ids),
        inner_control_root: inner,
    }
}

/// The view of an optional digest.
pub open spec fn opt_words(d: Option<Digest>) -> Option<Seq<u32>> {
    match d {
        Some(d) => Some(d@),
        None => None,
    }
}

/// Builds the verifier parameters for one stage from the stage's set of
/// allowed control identifiers. Fails with a configuration error when no
/// hash suite is registered for the stage's field, and with a parameter
/// build error when the control identifier set is empty, too large to
/// aggregate, or holds an identifier that does not encode an element of the
/// stage's field; identical inputs always yield an identical parameter
/// object.
pub fn build_verifier_parameters(
    stage: ReceiptStage,
    ids: &Vec<Digest>,
    inner_control_root: Option<Digest>,
    registry: &SuiteRegistry,
) -> (r: Result<VerifierParameters, ErrorKind>)
    ensures
        match r {
            Ok(p) => {
                &&& registry.spec_has(suite_for(stage))
                &&& 1 <= ids@.len() <= MAX_CONTROL_IDS
                &&& all_fit(suite_for(stage), ids@)
                &&& p@ == spec_verifier_parameters(
                    stage,
                    words_of(ids@),
                    opt_words(inner_control_root),
                )
            },
            Err(e) => {
                &&& !registry.spec_has(suite_for(stage)) ==> e == ErrorKind::Configuration
                &&& registry.spec_has(suite_for(stage)) ==> {
                    &&& !(1 <= ids@.len() <= MAX_CONTROL_IDS) || !all_fit(
                        suite_for(stage),
                        ids@,
                    )
                    &&& e == ErrorKind::ParameterBuild
                }
            },
        },
{
    let suite = match stage {
        ReceiptStage::TargetField => HashSuiteKind::Poseidon254,
        _ => HashSuiteKind::Poseidon2,
    };
    if !registry.has(suite) {
        return Err(ErrorKind::Configuration);
    }
    if ids.len() == 0 || ids.len() > MAX_CONTROL_IDS {
        return Err(ErrorKind::ParameterBuild);
    }
    let mut i: usize = 0;
    while i < ids.len()
        invariant
            i <= ids@.len(),
            suite == suite_for(stage),
            registry.spec_has(suite_for(stage)),
            forall|k: int| 0 <= k < i ==> digest_fits(suite, (#[trigger] ids@[k])@),
        decreases ids@.len() - i,
    {
        let id = ids[i];
        if !digest_fits_suite(suite, &id) {
            proof {
                assert(!digest_fits(suite, (ids@[i as int])@));
                assert(!all_fit(suite, ids@));
            }
            return Err(ErrorKind::ParameterBuild);
        }
        i = i + 1;
    }
    let control_root = range_root(suite, ids, 0, AGGREGATION_LEAVES);
    Ok(VerifierParameters { suite, control_root, inner_control_root })
}

/// Law: verifier-parameter construction is deterministic. Two parameter
/// objects owed for the same stage, the same control identifiers and the
/// same nested root are identical.
pub proof fn lemma_parameters_deterministic(
    stage: ReceiptStage,
    ids: Seq<Seq<u32>>,
    inner: Option<Seq<u32>>,
    p1: ParamsModel,
    p2: ParamsModel,
)
    requires
        p1 == spec_verifier_parameters(stage, ids, inner),
        p2 == spec_verifier_parameters(stage, ids, inner),
    ensures
        p1 == p2,
{
}

} // verus!
