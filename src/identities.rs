//! Resolving which identity files to read, and gathering what they hold.
//!
//! Reading and parsing a file is the caller's work. An [`IdentityLoader`]
//! decides which file comes next, takes back what reading it gave, and
//! either accumulates the identities or stops with the first failure.

use vstd::prelude::*;
use crate::config::{Platform, default_identity_path, get_config_dir, spec_default_identity_path};

verus! {

/// What reading and parsing one identity file gave.
pub enum ReadOutcome<I, E> {
    /// The file was read and parsed into these identities, in file order.
    Parsed(Vec<I>),
    /// The file does not exist; the error is the one that opening it gave.
    NotFound(E),
    /// Opening, reading or parsing failed for any other reason.
    Failed(E),
}

/// Why loading stopped.
pub enum LoadError<E> {
    /// No file was named and the platform gives no configuration directory.
    NoConfigDir,
    /// No file was named and the default identity file, at this path, does not exist.
    MissingDefault(String),
    /// A file could not be opened, read or parsed; the error is passed on unchanged.
    Read(E),
}

/// The state of a load: the files still to read, whether the one file is
/// the default identity file, and the identities gathered so far.
pub struct LoadState<I> {
    pub pending: Seq<String>,
    pub from_default: bool,
    pub loaded: Seq<I>,
}

/// A load in progress.
pub struct IdentityLoader<I> {
    pending: Vec<String>,
    from_default: bool,
    loaded: Vec<I>,
}

impl<I> View for IdentityLoader<I> {
    type V = LoadState<I>;

    closed spec fn view(&self) -> LoadState<I> {
        LoadState { pending: self.pending@, from_default: self.from_default, loaded: self.loaded@ }
    }
}

/// The state at the start of a load of the explicitly named `files`.
pub open spec fn explicit_state<I>(files: Seq<String>) -> LoadState<I> {
    LoadState { pending: files, from_default: false, loaded: seq![] }
}

/// The state at the start of a load of the default identity file at `path`.
pub open spec fn default_state<I>(path: String) -> LoadState<I> {
    LoadState { pending: seq![path], from_default: true, loaded: seq![] }
}

/// What one read does to a state whose next file is `s.pending[0]`.
///
/// Parsed identities are appended in order and the file is done. A missing
/// default file stops the load with its path; any other failure stops it
/// with the error as it came.
pub open spec fn step<I, E>(s: LoadState<I>, o: ReadOutcome<I, E>) -> Result<LoadState<I>, LoadError<E>> {
    match o {
        ReadOutcome::Parsed(v) => Ok(
            LoadState { pending: s.pending.drop_first(), from_default: s.from_default, loaded: s.loaded + v@ },
        ),
        ReadOutcome::NotFound(e) => if s.from_default {
            Err(LoadError::MissingDefault(s.pending[0]))
        } else {
            Err(LoadError::Read(e))
        },
        ReadOutcome::Failed(e) => Err(LoadError::Read(e)),
    }
}

/// The result of a whole load from state `s`, where `outs[i]` is what
/// reading the `i`-th pending file gives (`outs` has one entry per pending file).
pub open spec fn run<I, E>(s: LoadState<I>, outs: Seq<ReadOutcome<I, E>>) -> Result<Seq<I>, LoadError<E>>
    decreases outs.len(),
{
    if outs.len() == 0 || s.pending.len() == 0 {
        Ok(s.loaded)
    } else {
        match step(s, outs[0]) {
            Ok(n) => run(n, outs.drop_first()),
            Err(e) => Err(e),
        }
    }
}

/// Every outcome in `outs` is a successful parse.
pub open spec fn all_parsed<I, E>(outs: Seq<ReadOutcome<I, E>>) -> bool {
    forall|i: int| 0 <= i < outs.len() ==> (#[trigger] outs[i]) is Parsed
}

/// The identities of the successful parses in `outs`, in order.
pub open spec fn parsed_identities<I, E>(outs: Seq<ReadOutcome<I, E>>) -> Seq<I>
    decreases outs.len(),
{
    if outs.len() == 0 {
        seq![]
    } else {
        let rest = parsed_identities(outs.drop_first());
        match outs[0] {
            ReadOutcome::Parsed(v) => v@ + rest,
            _ => rest,
        }
    }
}

impl<I> IdentityLoader<I> {
    /// Starts a load, given the configuration directory (if any) that the
    /// platform `p` gives.
    ///
    /// Named `files` are read in the given order. With none named, the one
    /// file to read is `age/keys.txt` under `config_dir`; without a
    /// configuration directory the load fails with `NoConfigDir`.
    pub fn start<E>(files: Vec<String>, p: Platform, config_dir: Option<String>) -> (r: Result<
        IdentityLoader<I>,
        LoadError<E>,
    >)
        ensures
            files.len() > 0 ==> r is Ok && r->Ok_0@ == explicit_state::<I>(files@),
            files.len() == 0 && config_dir is None ==> r is Err && r->Err_0 is NoConfigDir,
            files.len() == 0 && config_dir is Some ==> r is Ok && r->Ok_0@ == default_state::<I>(
                r->Ok_0@.pending[0],
            ) && r->Ok_0@.pending[0]@ == spec_default_identity_path(p, config_dir->Some_0@),
    {
        if files.len() > 0 {
            let r = IdentityLoader { pending: files, from_default: false, loaded: Vec::new() };
            proof {
                assert(r@ == explicit_state::<I>(files@));
            }
            Ok(r)
        } else {
            match config_dir {
                None => Err(LoadError::NoConfigDir),
                Some(dir) => {
                    let path = default_identity_path(p, dir.as_str());
                    let r = IdentityLoader { pending: vec![path], from_default: true, loaded: Vec::new() };
                    proof {
                        assert(r@.pending =~= seq![path]);
                        assert(r@ == default_state::<I>(path));
                    }
                    Ok(r)
                },
            }
        }
    }

    /// Starts a load on platform `p`, asking the platform for its
    /// configuration directory only when no file is named.
    pub fn start_on<E>(files: Vec<String>, p: Platform) -> (r: Result<IdentityLoader<I>, LoadError<E>>)
        ensures
            files.len() > 0 ==> r is Ok && r->Ok_0@ == explicit_state::<I>(files@),
            files.len() == 0 && r is Err ==> r->Err_0 is NoConfigDir,
            files.len() == 0 && r is Ok ==> r->Ok_0@ == default_state::<I>(r->Ok_0@.pending[0])
                && exists|dir: Seq<char>| r->Ok_0@.pending[0]@ == spec_default_identity_path(p, dir),
    {
        if files.len() > 0 {
            Self::start(files, p, None)
        } else {
            let dir = get_config_dir(p);
            Self::start(files, p, dir)
        }
    }

    /// The next file to read, or `None` once every file has been read.
    pub fn next_path(&self) -> (r: Option<&String>)
        ensures
            self@.pending.len() == 0 ==> r is None,
            self@.pending.len() > 0 ==> r is Some && *r->Some_0 == self@.pending[0],
    {
        if self.pending.len() == 0 {
            None
        } else {
            Some(&self.pending[0])
        }
    }

    /// Takes in what reading the next file gave: the new state, or the
    /// error that ends the load.
    pub fn feed<E>(self, o: ReadOutcome<I, E>) -> (r: Result<IdentityLoader<I>, LoadError<E>>)
        requires
            self@.pending.len() > 0,
        ensures
            r is Ok <==> step(self@, o) is Ok,
            r is Ok ==> r->Ok_0@ == step(self@, o)->Ok_0,
            r is Err ==> r->Err_0 == step(self@, o)->Err_0,
    {
        let mut pending = self.pending;
        let mut loaded = self.loaded;
        let path = pending.remove(0);
        match o {
            ReadOutcome::Parsed(mut v) => {
                loaded.append(&mut v);
                let r = IdentityLoader { pending, from_default: self.from_default, loaded };
                proof {
                    assert(r@.pending =~= self@.pending.drop_first());
                }
                Ok(r)
            },
            ReadOutcome::NotFound(e) => {
                if self.from_default {
                    Err(LoadError::MissingDefault(path))
                } else {
                    Err(LoadError::Read(e))
                }
            },
            ReadOutcome::Failed(e) => Err(LoadError::Read(e)),
        }
    }

    /// The identities gathered, in order.
    pub fn finish(self) -> (r: Vec<I>)
        ensures
            r@ == self@.loaded,
    {
        self.loaded
    }
}

/// Loading a list of files that all parse gives the identities gathered so
/// far followed by those of each file, in file order, duplicates kept.
proof fn lemma_run_all_parsed<I, E>(s: LoadState<I>, outs: Seq<ReadOutcome<I, E>>)
    requires
        outs.len() == s.pending.len(),
        all_parsed(outs),
    ensures
        run(s, outs) == Ok::<Seq<I>, LoadError<E>>(s.loaded + parsed_identities(outs)),
    decreases outs.len(),
{
    if outs.len() == 0 {
        assert(s.loaded + parsed_identities(outs) =~= s.loaded);
    } else {
        let n = step(s, outs[0]);
        assert(outs[0] is Parsed);
        assert(all_parsed(outs.drop_first())) by {
            assert forall|i: int| 0 <= i < outs.drop_first().len() implies (#[trigger] outs.drop_first()[i]) is Parsed by {
                assert(outs.drop_first()[i] == outs[i + 1]);
            }
        }
        lemma_run_all_parsed(n->Ok_0, outs.drop_first());
        let v = outs[0]->Parsed_0;
        assert(s.loaded + v@ + parsed_identities(outs.drop_first()) =~= s.loaded + parsed_identities(outs));
    }
}

/// Loading the files `xs` followed by the files `ys`, all of which parse,
/// gives the identities of loading `xs` alone followed by those of loading
/// `ys` alone: order is kept and nothing is dropped or merged.
pub proof fn lemma_load_concat<I, E>(
    xs: Seq<String>,
    ys: Seq<String>,
    xouts: Seq<ReadOutcome<I, E>>,
    youts: Seq<ReadOutcome<I, E>>,
)
    requires
        xouts.len() == xs.len(),
        youts.len() == ys.len(),
        all_parsed(xouts),
        all_parsed(youts),
    ensures
        run(explicit_state::<I>(xs), xouts) is Ok,
        run(explicit_state::<I>(ys), youts) is Ok,
        run(explicit_state::<I>(xs + ys), xouts + youts) == Ok::<Seq<I>, LoadError<E>>(
            run(explicit_state::<I>(xs), xouts)->Ok_0 + run(explicit_state::<I>(ys), youts)->Ok_0,
        ),
{
    lemma_parsed_identities_concat(xouts, youts);
    assert(all_parsed(xouts + youts)) by {
        assert forall|i: int| 0 <= i < (xouts + youts).len() implies (#[trigger] (xouts + youts)[i]) is Parsed by {
            if i < xouts.len() {
                assert((xouts + youts)[i] == xouts[i]);
            } else {
                assert((xouts + youts)[i] == youts[i - xouts.len()]);
            }
        }
    }
    lemma_run_all_parsed(explicit_state::<I>(xs), xouts);
    lemma_run_all_parsed(explicit_state::<I>(ys), youts);
    lemma_run_all_parsed(explicit_state::<I>(xs + ys), xouts + youts);
    assert(seq![] + parsed_identities(xouts) =~= parsed_identities(xouts));
    assert(seq![] + parsed_identities(youts) =~= parsed_identities(youts));
    assert(seq![] + parsed_identities(xouts + youts) =~= parsed_identities(xouts + youts));
}

proof fn lemma_parsed_identities_concat<I, E>(a: Seq<ReadOutcome<I, E>>, b: Seq<ReadOutcome<I, E>>)
    ensures
        parsed_identities(a + b) == parsed_identities(a) + parsed_identities(b),
    decreases a.len(),
{
    if a.len() == 0 {
        assert(a + b =~= b);
        assert(parsed_identities(a) + parsed_identities(b) =~= parsed_identities(b));
    } else {
        assert((a + b).drop_first() =~= a.drop_first() + b);
        lemma_parsed_identities_concat(a.drop_first(), b);
        assert((a + b)[0] == a[0]);
        match a[0] {
            ReadOutcome::Parsed(v) => {
                assert(v@ + (parsed_identities(a.drop_first()) + parsed_identities(b)) =~= (v@
                    + parsed_identities(a.drop_first())) + parsed_identities(b));
            },
            _ => {},
        }
    }
}

/// With no file named, when the default identity file parses, the load
/// gives exactly the identities parsed from it.
pub proof fn lemma_default_present<I, E>(path: String, v: Vec<I>)
    ensures
        run(default_state::<I>(path), seq![ReadOutcome::<I, E>::Parsed(v)]) == Ok::<Seq<I>, LoadError<E>>(v@),
{
    let s = default_state::<I>(path);
    let outs = seq![ReadOutcome::<I, E>::Parsed(v)];
    let n = step(s, outs[0])->Ok_0;
    assert(outs.drop_first() =~= seq![]);
    assert(seq![] + v@ =~= v@);
    assert(run(n, outs.drop_first()) == Ok::<Seq<I>, LoadError<E>>(n.loaded));
}

/// With no file named, when the default identity file does not exist, the
/// load stops with `MissingDefault` carrying the default path itself.
pub proof fn lemma_default_missing<I, E>(p: Platform, dir: Seq<char>, path: String, e: E)
    requires
        path@ == spec_default_identity_path(p, dir),
    ensures
        run(default_state::<I>(path), seq![ReadOutcome::<I, E>::NotFound(e)]) == Err::<Seq<I>, LoadError<E>>(
            LoadError::MissingDefault(path),
        ),
        run(default_state::<I>(path), seq![ReadOutcome::<I, E>::NotFound(e)])->Err_0->MissingDefault_0@
            == spec_default_identity_path(p, dir),
{
}

} // verus!
