//! The indexer's decisions: which files are images, which directories are walked,
//! which images still need an embedding, and when the store is saved.
use vstd::prelude::*;
use crate::store::Store;

verus! {

/// The extension of a path, as `std::path::Path::extension` finds it in the last
/// component (empty when there is none).
pub uninterp spec fn extension_of(p: Seq<char>) -> Seq<char>;

/// The lowercase form of a string, as `str::to_lowercase` gives it.
pub uninterp spec fn lower_of(s: Seq<char>) -> Seq<char>;

/// Relies on `std::path::Path::extension`: the extension of the path's file name,
/// which depends on the path alone; a missing extension reads as "".
#[verifier::external_body]
fn path_extension(p: &str) -> (r: String)
    ensures
        r@ == extension_of(p@),
{
    std::path::Path::new(p).extension().unwrap_or_default().to_str().unwrap_or("").to_string()
}

/// Relies on `str::to_lowercase`: the result depends on the characters alone.
#[verifier::external_body]
fn lowercase(s: &str) -> (r: String)
    ensures
        r@ == lower_of(s@),
{
    s.to_lowercase()
}

/// Relies on `str::starts_with` with a `char` pattern.
#[verifier::external_body]
fn starts_with_char(s: &str, c: char) -> (r: bool)
    ensures
        r == (s@.len() > 0 && s@[0] == c),
{
    s.starts_with(c)
}

/// The lowercase extension of a path ("" when it has none).
pub fn get_extension(p: &str) -> (r: String)
    ensures
        r@ == lower_of(extension_of(p@)),
{
    let e = path_extension(p);
    lowercase(e.as_str())
}

/// The image formats that the index takes in.
#[derive(PartialEq, Eq, Structural, Clone, Copy, Debug)]
pub enum ImageFormat {
    Jpeg,
    Png,
    Heif,
}

impl ImageFormat {
    /// The content type under which an image of this format is served: HEIF images
    /// are served converted to JPEG.
    pub fn content_type(self) -> (r: &'static str)
        ensures
            r@ == match self {
                ImageFormat::Png => "image/png"@,
                _ => "image/jpeg"@,
            },
    {
        match self {
            ImageFormat::Png => "image/png",
            _ => "image/jpeg",
        }
    }
}

/// The format that a lowercase extension names, if it names one.
pub open spec fn format_of_extension(e: Seq<char>) -> Option<ImageFormat> {
    if e == "jpg"@ || e == "jpeg"@ {
        Some(ImageFormat::Jpeg)
    } else if e == "png"@ {
        Some(ImageFormat::Png)
    } else if e == "heic"@ || e == "heif"@ {
        Some(ImageFormat::Heif)
    } else {
        None
    }
}

/// Compares a string with a literal.
fn str_is(s: &str, lit: &str) -> (r: bool)
    ensures
        r == (s@ == lit@),
{
    let a = s.as_bytes();
    let b = lit.as_bytes();
    if a.len() != b.len() {
        proof {
            if s@ == lit@ {
                assert(a@ == b@);
            }
        }
        return false;
    }
    let mut i: usize = 0;
    while i < a.len()
        invariant
            a@ == crate::keys::key_bytes(s@),
            b@ == crate::keys::key_bytes(lit@),
            a@.len() == b@.len(),
            i <= a@.len(),
            a@.subrange(0, i as int) == b@.subrange(0, i as int),
        decreases a@.len() - i,
    {
        if a[i] != b[i] {
            proof {
                if s@ == lit@ {
                    assert(a@[i as int] == b@[i as int]);
                }
            }
            return false;
        }
        proof {
            assert(a@.subrange(0, i + 1) =~= a@.subrange(0, i as int).push(a@[i as int]));
            assert(b@.subrange(0, i + 1) =~= b@.subrange(0, i as int).push(b@[i as int]));
        }
        i = i + 1;
    }
    proof {
        assert(a@ =~= a@.subrange(0, i as int));
        assert(b@ =~= b@.subrange(0, i as int));
        crate::keys::lemma_key_bytes_injective(s@, lit@);
    }
    true
}

/// The format that a lowercase extension names: jpg and jpeg, png, heic and heif.
pub fn format_of(ext: &str) -> (r: Option<ImageFormat>)
    ensures
        r == format_of_extension(ext@),
{
    if str_is(ext, "jpg") || str_is(ext, "jpeg") {
        Some(ImageFormat::Jpeg)
    } else if str_is(ext, "png") {
        Some(ImageFormat::Png)
    } else if str_is(ext, "heic") || str_is(ext, "heif") {
        Some(ImageFormat::Heif)
    } else {
        None
    }
}

/// Whether the file at `path` is taken in by the index, judged by its extension.
pub fn is_image_path(path: &str) -> (r: bool)
    ensures
        r == format_of_extension(lower_of(extension_of(path@))) is Some,
{
    let e = get_extension(path);
    format_of(e.as_str()).is_some()
}

/// Whether a directory with this name is walked: hidden ones (name starting with
/// '.') are skipped.
pub fn should_descend(dir_name: &str) -> (r: bool)
    ensures
        r == !(dir_name@.len() > 0 && dir_name@[0] == '.'),
{
    !starts_with_char(dir_name, '.')
}

/// Whether the image at `path` still needs an embedding: it does when the store
/// has no entry for it.
pub fn needs_embedding<V>(store: &Store<V>, path: &str) -> (r: bool)
    requires
        store.wf(),
    ensures
        r == !store@.contains_key(path@),
{
    !store.contains_key(path)
}

/// One step of an indexing run over mapping `m`: a path already present is skipped;
/// otherwise its embedding is stored when one was computed.
pub open spec fn index_step<V>(m: Map<Seq<char>, V>, path: Seq<char>, outcome: Option<V>) -> Map<Seq<char>, V> {
    if m.contains_key(path) {
        m
    } else {
        match outcome {
            Some(v) => m.insert(path, v),
            None => m,
        }
    }
}

/// An indexing run over `paths` in order, where `outcomes[i]` is what embedding
/// `paths[i]` gave (nothing when it failed).
pub open spec fn index_run<V>(m: Map<Seq<char>, V>, paths: Seq<Seq<char>>, outcomes: Seq<Option<V>>) -> Map<Seq<char>, V>
    decreases paths.len(),
{
    if paths.len() == 0 {
        m
    } else {
        let prev = index_run(m, paths.drop_last(), outcomes);
        index_step(prev, paths.last(), outcomes[paths.len() - 1])
    }
}

/// Applies one indexing step to the store.
pub fn record_outcome<V>(store: &mut Store<V>, path: String, outcome: Option<V>)
    requires
        old(store).wf(),
    ensures
        final(store).wf(),
        final(store)@ == index_step(old(store)@, path@, outcome),
{
    if store.contains_key(path.as_str()) {
        return;
    }
    match outcome {
        Some(v) => store.insert(path, v),
        None => {},
    }
}

/// An indexing run keeps every entry that was there before it: a path that has an
/// embedding keeps it, whatever the run computes.
pub proof fn lemma_index_run_keeps<V>(m: Map<Seq<char>, V>, paths: Seq<Seq<char>>, outcomes: Seq<Option<V>>)
    requires
        outcomes.len() == paths.len(),
    ensures
        forall|k: Seq<char>| #[trigger] m.contains_key(k) ==> index_run(m, paths, outcomes).contains_key(k)
            && index_run(m, paths, outcomes)[k] == m[k],
    decreases paths.len(),
{
    if paths.len() > 0 {
        lemma_index_run_keeps(m, paths.drop_last(), outcomes.drop_last());
        lemma_index_run_outcomes_prefix(m, paths.drop_last(), outcomes);
    }
}

/// A run over `paths` reads only the first `paths.len()` outcomes.
proof fn lemma_index_run_outcomes_prefix<V>(m: Map<Seq<char>, V>, paths: Seq<Seq<char>>, outcomes: Seq<Option<V>>)
    requires
        paths.len() < outcomes.len(),
    ensures
        index_run(m, paths, outcomes) == index_run(m, paths, outcomes.take(paths.len() as int)),
    decreases paths.len(),
{
    if paths.len() > 0 {
        lemma_index_run_outcomes_prefix(m, paths.drop_last(), outcomes);
        lemma_index_run_outcomes_prefix(m, paths.drop_last(), outcomes.take(paths.len() as int));
        assert(outcomes.take(paths.len() as int).take(paths.len() - 1) =~= outcomes.take(paths.len() - 1));
    }
}

/// Indexing the same paths twice does not change an embedding that the first run
/// stored or found: the second run skips every path that has one.
pub proof fn lemma_index_twice<V>(m: Map<Seq<char>, V>, paths: Seq<Seq<char>>, first: Seq<Option<V>>, second: Seq<Option<V>>)
    requires
        first.len() == paths.len(),
        second.len() == paths.len(),
    ensures
        forall|k: Seq<char>| #[trigger] index_run(m, paths, first).contains_key(k) ==>
            index_run(index_run(m, paths, first), paths, second).contains_key(k)
            && index_run(index_run(m, paths, first), paths, second)[k] == index_run(m, paths, first)[k],
{
    lemma_index_run_keeps(index_run(m, paths, first), paths, second);
}

/// Number of newly processed images after which the store is saved.
pub const SAVE_INTERVAL: u64 = 50;

/// Counts processed images and says when the store is due to be saved.
pub struct SaveSchedule {
    since_save: u64,
}

impl SaveSchedule {
    pub closed spec fn pending(&self) -> nat {
        self.since_save as nat
    }

    pub open spec fn wf(&self) -> bool {
        self.pending() < SAVE_INTERVAL
    }

    /// A schedule with nothing processed yet.
    pub fn new() -> (s: Self)
        ensures
            s.wf(),
            s.pending() == 0,
    {
        SaveSchedule { since_save: 0 }
    }

    /// Records one processed image; returns whether the store is to be saved now,
    /// which happens after every `SAVE_INTERVAL` processed images.
    pub fn record_processed(&mut self) -> (save: bool)
        requires
            old(self).wf(),
        ensures
            final(self).wf(),
            save == (old(self).pending() + 1 == SAVE_INTERVAL),
            final(self).pending() == if save { 0 } else { old(self).pending() + 1 },
    {
        self.since_save = self.since_save + 1;
        if self.since_save == SAVE_INTERVAL {
            self.since_save = 0;
            true
        } else {
            false
        }
    }
}

} // verus!
