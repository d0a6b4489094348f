use vstd::prelude::*;

verus! {

/// Whether the process runs from its source tree or as a packaged build.
/// Fixed for the life of the process.
#[derive(Clone, Copy, PartialEq, Eq, Structural, Debug)]
pub enum BuildMode {
    Development,
    Production,
}

/// The tree that a candidate path is relative to.
#[derive(Clone, Copy, PartialEq, Eq, Structural, Debug, Hash)]
pub enum Origin {
    /// The project's own directory, consulted in development only.
    ProjectTree,
    /// The resource base directory under which the host packages assets.
    Resources,
}

/// One place to look for an asset: a path relative to a tree.
#[derive(Clone, Debug)]
pub struct Candidate {
    pub origin: Origin,
    pub relative: String,
}

/// What the host found when it looked at a candidate.
#[derive(Clone, Debug)]
pub enum Probe {
    /// The host could not map the candidate to a path.
    Unresolved,
    /// The candidate maps to a path at which nothing exists.
    Absent,
    /// Something exists at the path, written out as given.
    Present(String),
}

/// What the host is to do after reporting a probe.
#[derive(Clone, Debug)]
pub enum Step {
    /// Read the file that was found and hand the result to `read_outcome`.
    Read { origin: Origin, path: String },
    /// Look at the next candidate.
    Next,
    /// Every candidate was looked at and none exists.
    NotFound,
}

/// Why an asset could not be loaded.
#[derive(Clone, Debug, PartialEq, Eq)]
pub enum AssetError {
    /// A file was found but could not be read.
    ReadFailure { origin: Origin, path: String, cause: String },
    /// No candidate exists.
    NotFound { filename: String },
}

/// An `AssetError` as a mathematical value.
pub enum Failure {
    ReadFailure { origin: Origin, path: Seq<char>, cause: Seq<char> },
    NotFound { filename: Seq<char> },
}

impl View for AssetError {
    type V = Failure;

    open spec fn view(&self) -> Failure {
        match self {
            AssetError::ReadFailure { origin, path, cause } => Failure::ReadFailure {
                origin: *origin,
                path: path@,
                cause: cause@,
            },
            AssetError::NotFound { filename } => Failure::NotFound { filename: filename@ },
        }
    }
}

/// The number of positions in a search: the project tree, then four places
/// under the resource base directory.
pub const SEARCH_END: usize = 5;

/// The relative path of the `k`-th place under the resource base directory.
pub open spec fn resource_template(f: Seq<char>, k: int) -> Seq<char> {
    if k == 0 {
        "resources/audio/"@ + f
    } else if k == 1 {
        "resources/"@ + f
    } else if k == 2 {
        "audio/"@ + f
    } else {
        f
    }
}

/// The tree of the candidate at a position: the project tree at position
/// zero, the resource base directory after it.
pub open spec fn origin_at(pos: int) -> Origin {
    if pos == 0 {
        Origin::ProjectTree
    } else {
        Origin::Resources
    }
}

/// The candidate at a position of the search for `f`: the project tree at
/// position zero, then the resource templates in order.
pub open spec fn candidate_at(f: Seq<char>, pos: int) -> (Origin, Seq<char>) {
    if pos == 0 {
        (origin_at(pos), "resources/audio/"@ + f)
    } else {
        (origin_at(pos), resource_template(f, pos - 1))
    }
}

/// Where a search starts: development looks in the project tree first,
/// production never does.
pub open spec fn start_position(mode: BuildMode) -> int {
    match mode {
        BuildMode::Development => 0,
        BuildMode::Production => 1,
    }
}

/// The position after a probe: a found file ends the search.
pub open spec fn position_after(pos: int, probe: Probe) -> int {
    match probe {
        Probe::Present(_) => SEARCH_END as int,
        _ => pos + 1,
    }
}

/// The step that follows a probe at a position.
pub open spec fn step_for(pos: int, probe: Probe) -> Step {
    match probe {
        Probe::Present(path) => Step::Read { origin: origin_at(pos), path },
        _ => if pos + 1 >= SEARCH_END {
            Step::NotFound
        } else {
            Step::Next
        },
    }
}

/// What reading a found file yields.
pub open spec fn read_view(origin: Origin, path: Seq<char>, read: Result<Seq<u8>, Seq<char>>) -> Result<
    Seq<u8>,
    Failure,
> {
    match read {
        Ok(bytes) => Ok(bytes),
        Err(cause) => Err(Failure::ReadFailure { origin, path, cause }),
    }
}

/// The text of an error as the user sees it.
pub open spec fn message_text(e: Failure) -> Seq<char> {
    match e {
        Failure::ReadFailure { origin: Origin::ProjectTree, path, cause } =>
            "Failed to read file from dev path "@ + path + ": "@ + cause,
        Failure::ReadFailure { origin: Origin::Resources, path, cause } =>
            "Failed to read file at "@ + path + ": "@ + cause,
        Failure::NotFound { filename } =>
            "Could not find audio file "@ + filename + " in resources"@,
    }
}

impl AssetError {
    /// The human-readable text of the error.
    pub fn message(&self) -> (r: String)
        ensures
            r@ == message_text(self@),
    {
        match self {
            AssetError::ReadFailure { origin, path, cause } => {
                let head = match origin {
                    Origin::ProjectTree => String::from_str("Failed to read file from dev path "),
                    Origin::Resources => String::from_str("Failed to read file at "),
                };
                head.concat(path.as_str()).concat(": ").concat(cause.as_str())
            },
            AssetError::NotFound { filename } => {
                String::from_str("Could not find audio file ").concat(filename.as_str()).concat(
                    " in resources",
                )
            },
        }
    }
}

/// Turns the result of reading a found file into the result of the search.
/// A read that fails ends the search: no later candidate is tried.
pub fn read_outcome(origin: Origin, path: String, read: Result<Vec<u8>, String>) -> (r: Result<
    Vec<u8>,
    AssetError,
>)
    ensures
        r == match read {
            Ok(bytes) => Ok::<Vec<u8>, AssetError>(bytes),
            Err(cause) => Err(AssetError::ReadFailure { origin, path, cause }),
        },
        match r {
            Ok(bytes) => Ok::<Seq<u8>, Failure>(bytes@),
            Err(e) => Err(e@),
        } == read_view(
            origin,
            path@,
            match read {
                Ok(bytes) => Ok(bytes@),
                Err(cause) => Err(cause@),
            },
        ),
{
    match read {
        Ok(bytes) => Ok(bytes),
        Err(cause) => Err(AssetError::ReadFailure { origin, path, cause }),
    }
}

/// A search for one asset in progress. Each request makes its own.
pub struct AssetSearch {
    filename: String,
    mode: BuildMode,
    position: usize,
}

impl AssetSearch {
    /// The requested filename.
    pub closed spec fn filename_view(&self) -> Seq<char> {
        self.filename@
    }

    pub closed spec fn mode(&self) -> BuildMode {
        self.mode
    }

    /// The position of the next candidate to look at; `SEARCH_END` once the
    /// search is over.
    pub closed spec fn position(&self) -> int {
        self.position as int
    }

    pub open spec fn wf(&self) -> bool {
        start_position(self.mode()) <= self.position() <= SEARCH_END
    }

    /// Starts a search for `filename`.
    pub fn new(filename: String, mode: BuildMode) -> (s: AssetSearch)
        ensures
            s.wf(),
            s.filename_view() == filename@,
            s.mode() == mode,
            s.position() == start_position(mode),
    {
        let position: usize = match mode {
            BuildMode::Development => 0,
            BuildMode::Production => 1,
        };
        AssetSearch { filename, mode, position }
    }

    /// The candidate to look at now, or `None` once the search is over.
    pub fn current(&self) -> (r: Option<Candidate>)
        requires
            self.wf(),
        ensures
            self.position() < SEARCH_END ==> r is Some && r->Some_0.origin == candidate_at(
                self.filename_view(),
                self.position(),
            ).0 && r->Some_0.relative@ == candidate_at(self.filename_view(), self.position()).1,
            self.position() >= SEARCH_END ==> r is None,
    {
        if self.position >= SEARCH_END {
            return None;
        }
        let origin = if self.position == 0 {
            Origin::ProjectTree
        } else {
            Origin::Resources
        };
        let relative = if self.position <= 1 {
            String::from_str("resources/audio/").concat(self.filename.as_str())
        } else if self.position == 2 {
            String::from_str("resources/").concat(self.filename.as_str())
        } else if self.position == 3 {
            String::from_str("audio/").concat(self.filename.as_str())
        } else {
            self.filename.clone()
        };
        Some(Candidate { origin, relative })
    }

    /// Takes what the host found at the current candidate and says what to do
    /// next. A found file ends the search, whether or not it can be read.
    pub fn observe(&mut self, probe: Probe) -> (r: Step)
        requires
            old(self).wf(),
            old(self).position() < SEARCH_END,
        ensures
            final(self).wf(),
            final(self).filename_view() == old(self).filename_view(),
            final(self).mode() == old(self).mode(),
            final(self).position() == position_after(old(self).position(), probe),
            r == step_for(old(self).position(), probe),
    {
        let origin = if self.position == 0 {
            Origin::ProjectTree
        } else {
            Origin::Resources
        };
        match probe {
            Probe::Present(path) => {
                self.position = SEARCH_END;
                Step::Read { origin, path }
            },
            _ => {
                self.position = self.position + 1;
                if self.position >= SEARCH_END {
                    Step::NotFound
                } else {
                    Step::Next
                }
            },
        }
    }

    /// The error of a search in which no candidate exists.
    pub fn not_found(&self) -> (e: AssetError)
        ensures
            e@ == (Failure::NotFound { filename: self.filename_view() }),
    {
        AssetError::NotFound { filename: self.filename.clone() }
    }
}

/// What a host's filesystem holds at one candidate, as a mathematical value.
pub enum Lookup {
    /// The candidate cannot be mapped to a path.
    Unresolved,
    /// Nothing exists at the mapped path.
    Absent,
    /// Something exists at `path`; reading it gives `read`.
    Present { path: Seq<char>, read: Result<Seq<u8>, Seq<char>> },
}

/// What `world` holds at the candidate at `pos` of the search for `f`.
pub open spec fn lookup_at(
    f: Seq<char>,
    pos: int,
    world: spec_fn(Origin, Seq<char>) -> Lookup,
) -> Lookup {
    world(candidate_at(f, pos).0, candidate_at(f, pos).1)
}

/// The result of a search for `f` from position `pos` on: the first
/// candidate that exists decides, and none existing means not found.
pub open spec fn outcome_from(
    f: Seq<char>,
    pos: int,
    world: spec_fn(Origin, Seq<char>) -> Lookup,
) -> Result<Seq<u8>, Failure>
    decreases SEARCH_END - pos,
{
    if pos < 0 || pos >= SEARCH_END {
        Err(Failure::NotFound { filename: f })
    } else {
        match lookup_at(f, pos, world) {
            Lookup::Present { path, read } => read_view(candidate_at(f, pos).0, path, read),
            _ => outcome_from(f, pos + 1, world),
        }
    }
}

/// The result of a whole search for `f` in `world`, as `AssetSearch` and
/// `read_outcome` carry it out step by step.
pub open spec fn resolution(
    mode: BuildMode,
    f: Seq<char>,
    world: spec_fn(Origin, Seq<char>) -> Lookup,
) -> Result<Seq<u8>, Failure> {
    outcome_from(f, start_position(mode), world)
}

proof fn lemma_outcome_at_first_present(
    f: Seq<char>,
    pos: int,
    k: int,
    world: spec_fn(Origin, Seq<char>) -> Lookup,
)
    requires
        0 <= pos <= k < SEARCH_END,
        forall|j: int| pos <= j < k ==> !(#[trigger] lookup_at(f, j, world) is Present),
        lookup_at(f, k, world) is Present,
    ensures
        outcome_from(f, pos, world) == read_view(
            candidate_at(f, k).0,
            lookup_at(f, k, world)->path,
            lookup_at(f, k, world)->read,
        ),
    decreases k - pos,
{
    if pos < k {
        assert(!(lookup_at(f, pos, world) is Present));
        lemma_outcome_at_first_present(f, pos + 1, k, world);
    }
}

proof fn lemma_outcome_none_present(
    f: Seq<char>,
    pos: int,
    world: spec_fn(Origin, Seq<char>) -> Lookup,
)
    requires
        0 <= pos <= SEARCH_END,
        forall|j: int| pos <= j < SEARCH_END ==> !(#[trigger] lookup_at(f, j, world) is Present),
    ensures
        outcome_from(f, pos, world) == (Err::<Seq<u8>, Failure>(Failure::NotFound { filename: f })),
    decreases SEARCH_END - pos,
{
    if pos < SEARCH_END {
        assert(!(lookup_at(f, pos, world) is Present));
        lemma_outcome_none_present(f, pos + 1, world);
    }
}

/// The first candidate that exists decides the search: its file's bytes, or
/// the failure to read it. What lies at later candidates plays no part.
pub proof fn lemma_first_existing_candidate_decides(
    mode: BuildMode,
    f: Seq<char>,
    world: spec_fn(Origin, Seq<char>) -> Lookup,
    other: spec_fn(Origin, Seq<char>) -> Lookup,
    k: int,
)
    requires
        start_position(mode) <= k < SEARCH_END,
        forall|j: int|
            start_position(mode) <= j < k ==> !(#[trigger] lookup_at(f, j, world) is Present),
        lookup_at(f, k, world) is Present,
        forall|j: int|
            start_position(mode) <= j <= k ==> #[trigger] lookup_at(f, j, other) == lookup_at(
                f,
                j,
                world,
            ),
    ensures
        resolution(mode, f, world) == read_view(
            candidate_at(f, k).0,
            lookup_at(f, k, world)->path,
            lookup_at(f, k, world)->read,
        ),
        resolution(mode, f, other) == resolution(mode, f, world),
{
    lemma_outcome_at_first_present(f, start_position(mode), k, world);
    assert forall|j: int| start_position(mode) <= j < k implies !(#[trigger] lookup_at(
        f,
        j,
        other,
    ) is Present) by {
        assert(lookup_at(f, j, other) == lookup_at(f, j, world));
    }
    assert(lookup_at(f, k, other) == lookup_at(f, k, world));
    lemma_outcome_at_first_present(f, start_position(mode), k, other);
}

/// A file at the first candidate of the mode is what the search returns,
/// byte for byte, whatever the later candidates hold.
pub proof fn lemma_first_candidate_wins(
    mode: BuildMode,
    f: Seq<char>,
    world: spec_fn(Origin, Seq<char>) -> Lookup,
    other: spec_fn(Origin, Seq<char>) -> Lookup,
    path: Seq<char>,
    bytes: Seq<u8>,
)
    requires
        lookup_at(f, start_position(mode), world) == (Lookup::Present { path, read: Ok(bytes) }),
        lookup_at(f, start_position(mode), other) == lookup_at(f, start_position(mode), world),
    ensures
        resolution(mode, f, world) == Ok::<Seq<u8>, Failure>(bytes),
        resolution(mode, f, other) == Ok::<Seq<u8>, Failure>(bytes),
{
    lemma_first_existing_candidate_decides(mode, f, world, other, start_position(mode));
}

/// Where no candidate exists the search fails as not found, and the error's
/// text holds the requested filename.
pub proof fn lemma_nothing_found_names_the_file(
    mode: BuildMode,
    f: Seq<char>,
    world: spec_fn(Origin, Seq<char>) -> Lookup,
)
    requires
        forall|j: int|
            start_position(mode) <= j < SEARCH_END ==> !(#[trigger] lookup_at(
                f,
                j,
                world,
            ) is Present),
    ensures
        resolution(mode, f, world) == (Err::<Seq<u8>, Failure>(Failure::NotFound { filename: f })),
        message_text(Failure::NotFound { filename: f }).subrange(
            "Could not find audio file "@.len() as int,
            ("Could not find audio file "@.len() + f.len()) as int,
        ) == f,
{
    lemma_outcome_none_present(f, start_position(mode), world);
    let text = message_text(Failure::NotFound { filename: f });
    assert(text.subrange(
        "Could not find audio file "@.len() as int,
        ("Could not find audio file "@.len() + f.len()) as int,
    ) =~= f);
}

/// A file that exists but cannot be read ends the search with a read
/// failure: the candidates after it are not consulted.
pub proof fn lemma_read_failure_is_terminal(
    mode: BuildMode,
    f: Seq<char>,
    world: spec_fn(Origin, Seq<char>) -> Lookup,
    other: spec_fn(Origin, Seq<char>) -> Lookup,
    k: int,
    path: Seq<char>,
    cause: Seq<char>,
)
    requires
        start_position(mode) <= k < SEARCH_END,
        forall|j: int|
            start_position(mode) <= j < k ==> !(#[trigger] lookup_at(f, j, world) is Present),
        lookup_at(f, k, world) == (Lookup::Present { path, read: Err(cause) }),
        forall|j: int|
            start_position(mode) <= j <= k ==> #[trigger] lookup_at(f, j, other) == lookup_at(
                f,
                j,
                world,
            ),
    ensures
        resolution(mode, f, world) == (Err::<Seq<u8>, Failure>(
            Failure::ReadFailure { origin: candidate_at(f, k).0, path, cause },
        )),
        resolution(mode, f, other) == resolution(mode, f, world),
{
    lemma_first_existing_candidate_decides(mode, f, world, other, k);
}

/// In production the project tree is never consulted: with nothing under
/// the resource base directory the search is not found, even where a file
/// lies in the project tree.
pub proof fn lemma_production_skips_project_tree(
    f: Seq<char>,
    world: spec_fn(Origin, Seq<char>) -> Lookup,
)
    requires
        forall|j: int| 1 <= j < SEARCH_END ==> !(#[trigger] lookup_at(f, j, world) is Present),
    ensures
        resolution(BuildMode::Production, f, world) == (Err::<Seq<u8>, Failure>(
            Failure::NotFound { filename: f },
        )),
{
    lemma_outcome_none_present(f, start_position(BuildMode::Production), world);
}

} // verus!
