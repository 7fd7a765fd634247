//! Index configurations, one per index family, and the handle that hands a
//! configuration out exactly once.
//!
//! Every optional field that is `None` leaves the indexing engine's own
//! default in place; a `Some` overrides it.
use vstd::prelude::*;
use vstd::rwlock::{RwLock, RwLockPredicate};
use crate::distance::{distance_of, is_invalid_distance, parse_distance_type, DistanceType};
use crate::error::IndexError;

verus! {

/// Options of an IVF index with product quantization.
#[derive(Clone, Copy, Debug, PartialEq, Eq)]
pub struct IvfPqOptions {
    pub distance_type: Option<DistanceType>,
    pub num_partitions: Option<u32>,
    pub num_sub_vectors: Option<u32>,
    pub num_bits: Option<u32>,
    pub max_iterations: Option<u32>,
    pub sample_rate: Option<u32>,
}

/// Options of an IVF index with an HNSW graph and product quantization.
#[derive(Clone, Copy, Debug, PartialEq, Eq)]
pub struct IvfHnswPqOptions {
    pub distance_type: Option<DistanceType>,
    pub num_partitions: Option<u32>,
    pub num_sub_vectors: Option<u32>,
    pub num_bits: Option<u32>,
    pub max_iterations: Option<u32>,
    pub sample_rate: Option<u32>,
    /// Out-degree of the graph (the engine's "num_edges").
    pub m: Option<u32>,
    pub ef_construction: Option<u32>,
}

/// Options of an IVF index with an HNSW graph and scalar quantization.
#[derive(Clone, Copy, Debug, PartialEq, Eq)]
pub struct IvfHnswSqOptions {
    pub distance_type: Option<DistanceType>,
    pub num_partitions: Option<u32>,
    pub max_iterations: Option<u32>,
    pub sample_rate: Option<u32>,
    /// Out-degree of the graph (the engine's "num_edges").
    pub m: Option<u32>,
    pub ef_construction: Option<u32>,
}

/// Options of a full-text index. `max_token_length` is always handed to the
/// engine, `None` included; the other fields only when present.
#[derive(Clone, Debug, PartialEq, Eq)]
pub struct FtsOptions {
    pub with_position: Option<bool>,
    pub base_tokenizer: Option<String>,
    pub language: Option<String>,
    pub max_token_length: Option<usize>,
    pub lower_case: Option<bool>,
    pub stem: Option<bool>,
    pub remove_stop_words: Option<bool>,
    pub ascii_folding: Option<bool>,
}

/// The configuration of one index, one variant per index family.
#[derive(Clone, Debug, PartialEq, Eq)]
pub enum IndexVariant {
    IvfPq(IvfPqOptions),
    IvfHnswPq(IvfHnswPqOptions),
    IvfHnswSq(IvfHnswSqOptions),
    BTree,
    Bitmap,
    LabelList,
    FTS(FtsOptions),
}

/// The state of a handle: holding its configuration, or emptied for good.
pub enum IndexSlot {
    Loaded(IndexVariant),
    Consumed,
}

/// What taking from a slot returns.
pub open spec fn take_outcome(s: IndexSlot) -> Result<IndexVariant, IndexError> {
    match s {
        IndexSlot::Loaded(v) => Ok(v),
        IndexSlot::Consumed => Err(IndexError::AlreadyConsumed),
    }
}

impl IndexSlot {
    /// Hands out the configuration if it is still held; the slot is empty
    /// afterwards, whatever it held before.
    pub fn take(&mut self) -> (r: Result<IndexVariant, IndexError>)
        ensures
            *final(self) == IndexSlot::Consumed,
            r == take_outcome(*old(self)),
    {
        let mut prev = IndexSlot::Consumed;
        std::mem::swap(self, &mut prev);
        prev.into_outcome()
    }

    /// What the slot yields when its configuration is asked for.
    pub fn into_outcome(self) -> (r: Result<IndexVariant, IndexError>)
        ensures
            r == take_outcome(self),
    {
        match self {
            IndexSlot::Loaded(v) => Ok(v),
            IndexSlot::Consumed => Err(IndexError::AlreadyConsumed),
        }
    }
}

/// Taking twice from a loaded slot: the first take returns the configuration,
/// the second fails because the configuration was already handed out.
pub proof fn lemma_take_once(v: IndexVariant)
    ensures
        take_outcome(IndexSlot::Loaded(v)) == Ok::<IndexVariant, IndexError>(v),
        take_outcome(IndexSlot::Consumed) == Err::<IndexVariant, IndexError>(
            IndexError::AlreadyConsumed,
        ),
{
}

/// What the lock of a handle may hold: its own configuration, or nothing.
pub struct HoldsOnly {
    pub variant: IndexVariant,
}

impl RwLockPredicate<IndexSlot> for HoldsOnly {
    open spec fn inv(self, s: IndexSlot) -> bool {
        s == IndexSlot::Consumed || s == IndexSlot::Loaded(self.variant)
    }
}

/// A handle on one index configuration. The configuration can be taken out
/// once; the handle may be shared between threads.
pub struct Index {
    slot: RwLock<IndexSlot, HoldsOnly>,
}

/// The distance override an optional token asks for: `None` when the token
/// is not a known metric, `Some(None)` when there is no token.
pub open spec fn distance_override(d: Option<String>) -> Option<Option<DistanceType>> {
    match d {
        None => Some(None),
        Some(s) => match distance_of(s@) {
            Some(t) => Some(Some(t)),
            None => None,
        },
    }
}

/// The outcome a builder owes for an optional distance token: the error for
/// an unknown token, else a handle whose configuration is `built`.
pub open spec fn built_with(
    d: Option<String>,
    r: Result<Index, IndexError>,
    built: IndexVariant,
) -> bool {
    &&& distance_override(d) is None ==> r is Err && is_invalid_distance(r->Err_0, d->0@)
    &&& distance_override(d) is Some ==> r is Ok && r->Ok_0.config() == built
}

fn parse_override(d: Option<String>) -> (r: Result<Option<DistanceType>, IndexError>)
    ensures
        distance_override(d) is None ==> r is Err && is_invalid_distance(r->Err_0, d->0@),
        distance_override(d) is Some ==> r is Ok && r->Ok_0 == distance_override(d)->0,
{
    match d {
        None => Ok(None),
        Some(s) => match parse_distance_type(s.as_str()) {
            Ok(t) => Ok(Some(t)),
            Err(e) => Err(e),
        },
    }
}

impl Index {
    /// The configuration this handle was built with.
    pub closed spec fn config(&self) -> IndexVariant {
        self.slot.pred().variant
    }

    fn loaded(v: IndexVariant) -> (r: Index)
        ensures
            r.config() == v,
    {
        let ghost pred = HoldsOnly { variant: v };
        Index { slot: RwLock::new(IndexSlot::Loaded(v), Ghost(pred)) }
    }

    /// Takes the configuration out. Only the first call succeeds; every later
    /// one, from this thread or another, reports that it was already used.
    pub fn consume(&self) -> (r: Result<IndexVariant, IndexError>)
        ensures
            r is Ok ==> r->Ok_0 == self.config(),
            r is Err ==> r->Err_0 == IndexError::AlreadyConsumed,
    {
        let (mut slot, handle) = self.slot.acquire_write();
        let r = slot.take();
        handle.release_write(slot);
        r
    }
    /// An IVF-PQ configuration. A distance token, when given, must be one of
    /// `l2`, `cosine` and `dot`; every other field is taken as given.
    pub fn ivf_pq(
        distance_type: Option<String>,
        num_partitions: Option<u32>,
        num_sub_vectors: Option<u32>,
        num_bits: Option<u32>,
        max_iterations: Option<u32>,
        sample_rate: Option<u32>,
    ) -> (r: Result<Index, IndexError>)
        ensures
            built_with(
                distance_type,
                r,
                IndexVariant::IvfPq(
                    (IvfPqOptions {
                        distance_type: distance_override(distance_type)->0,
                        num_partitions,
                        num_sub_vectors,
                        num_bits,
                        max_iterations,
                        sample_rate,
                    }),
                ),
            ),
    {
        let distance_type = match parse_override(distance_type) {
            Ok(d) => d,
            Err(e) => return Err(e),
        };
        Ok(
            Index::loaded(
                IndexVariant::IvfPq(
                    IvfPqOptions {
                        distance_type,
                        num_partitions,
                        num_sub_vectors,
                        num_bits,
                        max_iterations,
                        sample_rate,
                    },
                ),
            ),
        )
    }

    /// A BTree configuration; it has no options.
    pub fn btree() -> (r: Result<Index, IndexError>)
        ensures
            r is Ok && r->Ok_0.config() == IndexVariant::BTree,
    {
        Ok(Index::loaded(IndexVariant::BTree))
    }

    /// A bitmap configuration; it has no options.
    pub fn bitmap() -> (r: Result<Index, IndexError>)
        ensures
            r is Ok && r->Ok_0.config() == IndexVariant::Bitmap,
    {
        Ok(Index::loaded(IndexVariant::Bitmap))
    }

    /// A label-list configuration; it has no options.
    pub fn label_list() -> (r: Result<Index, IndexError>)
        ensures
            r is Ok && r->Ok_0.config() == IndexVariant::LabelList,
    {
        Ok(Index::loaded(IndexVariant::LabelList))
    }

    /// A full-text configuration with the given tokenizer options.
    /// `language_rejection` is the tokenizer's answer on `language`: its
    /// reason when it does not know the tag, `None` when it accepts it. A
    /// refused tag fails the build; nothing else can.
    pub fn fts(
        with_position: Option<bool>,
        base_tokenizer: Option<String>,
        language: Option<String>,
        language_rejection: Option<String>,
        max_token_length: Option<usize>,
        lower_case: Option<bool>,
        stem: Option<bool>,
        remove_stop_words: Option<bool>,
        ascii_folding: Option<bool>,
    ) -> (r: Result<Index, IndexError>)
        ensures
            language is Some && language_rejection is Some ==> r is Err && r->Err_0 == (
            IndexError::InvalidLanguage {
                language: language->0,
                reason: language_rejection->0,
            }),
            !(language is Some && language_rejection is Some) ==> r is Ok && r->Ok_0.config()
                == IndexVariant::FTS(
                (FtsOptions {
                    with_position,
                    base_tokenizer,
                    language,
                    max_token_length,
                    lower_case,
                    stem,
                    remove_stop_words,
                    ascii_folding,
                }),
            ),
    {
        let language = match language {
            Some(l) => match language_rejection {
                Some(reason) => {
                    return Err(IndexError::InvalidLanguage { language: l, reason });
                },
                None => Some(l),
            },
            None => None,
        };
        Ok(
            Index::loaded(
                IndexVariant::FTS(
                    FtsOptions {
                        with_position,
                        base_tokenizer,
                        language,
                        max_token_length,
                        lower_case,
                        stem,
                        remove_stop_words,
                        ascii_folding,
                    },
                ),
            ),
        )
    }

    /// An IVF-HNSW-PQ configuration: the IVF-PQ options plus the graph's
    /// out-degree `m` and its construction breadth `ef_construction`.
    pub fn hnsw_pq(
        distance_type: Option<String>,
        num_partitions: Option<u32>,
        num_sub_vectors: Option<u32>,
        num_bits: Option<u32>,
        max_iterations: Option<u32>,
        sample_rate: Option<u32>,
        m: Option<u32>,
        ef_construction: Option<u32>,
    ) -> (r: Result<Index, IndexError>)
        ensures
            built_with(
                distance_type,
                r,
                IndexVariant::IvfHnswPq(
                    (IvfHnswPqOptions {
                        distance_type: distance_override(distance_type)->0,
                        num_partitions,
                        num_sub_vectors,
                        num_bits,
                        max_iterations,
                        sample_rate,
                        m,
                        ef_construction,
                    }),
                ),
            ),
    {
        let distance_type = match parse_override(distance_type) {
            Ok(d) => d,
            Err(e) => return Err(e),
        };
        Ok(
            Index::loaded(
                IndexVariant::IvfHnswPq(
                    IvfHnswPqOptions {
                        distance_type,
                        num_partitions,
                        num_sub_vectors,
                        num_bits,
                        max_iterations,
                        sample_rate,
                        m,
                        ef_construction,
                    },
                ),
            ),
        )
    }

    /// An IVF-HNSW-SQ configuration: like IVF-HNSW-PQ, without sub-vectors
    /// and bit width, which scalar quantization does not have.
    pub fn hnsw_sq(
        distance_type: Option<String>,
        num_partitions: Option<u32>,
        max_iterations: Option<u32>,
        sample_rate: Option<u32>,
        m: Option<u32>,
        ef_construction: Option<u32>,
    ) -> (r: Result<Index, IndexError>)
        ensures
            built_with(
                distance_type,
                r,
                IndexVariant::IvfHnswSq(
                    (IvfHnswSqOptions {
                        distance_type: distance_override(distance_type)->0,
                        num_partitions,
                        max_iterations,
                        sample_rate,
                        m,
                        ef_construction,
                    }),
                ),
            ),
    {
        let distance_type = match parse_override(distance_type) {
            Ok(d) => d,
            Err(e) => return Err(e),
        };
        Ok(
            Index::loaded(
                IndexVariant::IvfHnswSq(
                    IvfHnswSqOptions {
                        distance_type,
                        num_partitions,
                        max_iterations,
                        sample_rate,
                        m,
                        ef_construction,
                    },
                ),
            ),
        )
    }
}

} // verus!
