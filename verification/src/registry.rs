//! The registry of compute programs: which programs come of what the shader
//! compiler made of a source, and which of them is active.

use vstd::prelude::*;

verus! {

/// What the shader compiler made of one source. The compiler runs outside
/// this crate, where a failure of the compiler itself can be contained; this
/// is its answer in plain values.
#[derive(Debug)]
pub enum Analysis {
    /// The source does not parse. The field is the compiler's diagnostic.
    Unparsed(String),
    /// The source parses, but the module fails validation. The field is the
    /// compiler's diagnostic.
    Invalid(String),
    /// The source parses and validates. The field holds the names of its
    /// entry points, in the order the source declares them.
    Valid(Vec<String>),
}

/// The mathematical value of an [`Analysis`].
pub enum AnalysisView {
    Unparsed(Seq<char>),
    Invalid(Seq<char>),
    Valid(Seq<Seq<char>>),
}

impl View for Analysis {
    type V = AnalysisView;

    open spec fn view(&self) -> AnalysisView {
        match self {
            Analysis::Unparsed(diagnostic) => AnalysisView::Unparsed(diagnostic@),
            Analysis::Invalid(diagnostic) => AnalysisView::Invalid(diagnostic@),
            Analysis::Valid(entry_points) => AnalysisView::Valid(entry_points.deep_view()),
        }
    }
}

/// The diagnostic for a list of entry points in which a name repeats. No
/// valid module has such a list, since a module declares each name once.
pub open spec fn repeated_name() -> Seq<char> {
    "entry point declared more than once"@
}

/// Why a shader source yields no set of programs.
#[derive(Debug, PartialEq, Eq)]
pub enum CompileError {
    /// The source is a valid module that declares no entry point.
    NoEntryPoints,
    /// The source fails to parse or to validate; the compiler's diagnostic is
    /// carried as is.
    SyntaxOrValidation(String),
}

/// The mathematical value of a [`CompileError`].
pub enum CompileErrorView {
    NoEntryPoints,
    SyntaxOrValidation(Seq<char>),
}

impl View for CompileError {
    type V = CompileErrorView;

    open spec fn view(&self) -> CompileErrorView {
        match self {
            CompileError::NoEntryPoints => CompileErrorView::NoEntryPoints,
            CompileError::SyntaxOrValidation(details) => CompileErrorView::SyntaxOrValidation(
                details@,
            ),
        }
    }
}

/// The mathematical value of a [`Pipelines`]: the entry point names in the
/// order the source declares them, and the name of the active one.
pub struct PipelinesView {
    pub entry_points: Seq<Seq<char>>,
    pub current_pipeline: Seq<char>,
}

impl PipelinesView {
    /// No name occurs twice, and the active name is one of the entry points.
    pub open spec fn wf(self) -> bool {
        &&& self.entry_points.no_duplicates()
        &&& self.entry_points.contains(self.current_pipeline)
    }

    /// The set that a successful compile yields: the first entry point is
    /// active.
    pub open spec fn fresh(names: Seq<Seq<char>>) -> PipelinesView {
        PipelinesView { entry_points: names, current_pipeline: names[0] }
    }

    /// This set after a request to make `name` active: the request is
    /// honoured exactly when `name` is one of the entry points.
    pub open spec fn select(self, name: Seq<char>) -> PipelinesView {
        if self.entry_points.contains(name) {
            PipelinesView { entry_points: self.entry_points, current_pipeline: name }
        } else {
            self
        }
    }
}

/// `slot` is the position at which `name` first occurs in `names`.
pub open spec fn is_slot_of(names: Seq<Seq<char>>, name: Seq<char>, slot: int) -> bool {
    &&& 0 <= slot < names.len()
    &&& names[slot] == name
    &&& forall|j: int| 0 <= j < slot ==> names[j] != name
}

/// What compiling yields, given what the compiler made of the source. A
/// source that fails to parse or to validate is an error with the compiler's
/// diagnostic, whatever entry points it has. A valid module without entry
/// points is an error of its own. Every other valid module yields a set with
/// its entry points in their order, the first one active.
pub open spec fn compiled(analysis: AnalysisView) -> Result<PipelinesView, CompileErrorView> {
    match analysis {
        AnalysisView::Unparsed(diagnostic) => Err(CompileErrorView::SyntaxOrValidation(diagnostic)),
        AnalysisView::Invalid(diagnostic) => Err(CompileErrorView::SyntaxOrValidation(diagnostic)),
        AnalysisView::Valid(names) => if !names.no_duplicates() {
            Err(CompileErrorView::SyntaxOrValidation(repeated_name()))
        } else if names.len() == 0 {
            Err(CompileErrorView::NoEntryPoints)
        } else {
            Ok(PipelinesView::fresh(names))
        },
    }
}

/// Compiling succeeds on exactly the sources that parse, validate and
/// declare at least one entry point, each name once. The names returned are
/// then the ones the compiler found, in its order, with the first one
/// active; so the list is not empty and no name occurs twice in it.
pub proof fn compile_succeeds_on_entry_points(analysis: AnalysisView)
    ensures
        compiled(analysis) is Ok <==> (analysis matches AnalysisView::Valid(names) && names.len()
            >= 1 && names.no_duplicates()),
        compiled(analysis) matches Ok(pipelines) ==> {
            &&& pipelines.entry_points.len() >= 1
            &&& analysis == AnalysisView::Valid(pipelines.entry_points)
            &&& pipelines.current_pipeline == pipelines.entry_points[0]
            &&& pipelines.wf()
        },
{
}

/// Compiling a source that fails to parse or to validate fails with the
/// compiler's diagnostic, and compiling a valid source without entry points
/// fails with `NoEntryPoints`, which no other source gives: none of them
/// yields a set of programs.
pub proof fn compile_fails_without_entry_points(analysis: AnalysisView)
    ensures
        analysis matches AnalysisView::Unparsed(diagnostic) ==> compiled(analysis) == Err::<
            PipelinesView,
            CompileErrorView,
        >(CompileErrorView::SyntaxOrValidation(diagnostic)),
        analysis matches AnalysisView::Invalid(diagnostic) ==> compiled(analysis) == Err::<
            PipelinesView,
            CompileErrorView,
        >(CompileErrorView::SyntaxOrValidation(diagnostic)),
        compiled(analysis) == Err::<PipelinesView, CompileErrorView>(
            CompileErrorView::NoEntryPoints,
        ) <==> (analysis matches AnalysisView::Valid(names) && names.len() == 0),
{
}

/// The programs compiled from one shader source, one per entry point, and
/// the choice of the active one.
///
/// The executables themselves live with the device. The registry gives each
/// entry point a slot, its position in declaration order, under which the
/// caller keeps the executable.
#[derive(Debug)]
pub struct Pipelines {
    entry_points: Vec<String>,
    current: usize,
}

impl View for Pipelines {
    type V = PipelinesView;

    closed spec fn view(&self) -> PipelinesView {
        PipelinesView {
            entry_points: self.entry_points.deep_view(),
            current_pipeline: self.entry_points[self.current as int]@,
        }
    }
}

impl Pipelines {
    #[verifier::type_invariant]
    spec fn inv(self) -> bool {
        &&& self.entry_points.deep_view().no_duplicates()
        &&& self.current < self.entry_points.len()
    }

    /// Compiles the set from what the compiler made of a source.
    pub fn from_analysis(analysis: Analysis) -> (made: Result<Pipelines, CompileError>)
        ensures
            match made {
                Ok(pipelines) => Ok::<PipelinesView, CompileErrorView>(pipelines@),
                Err(error) => Err::<PipelinesView, CompileErrorView>(error@),
            } == compiled(analysis@),
            made matches Ok(pipelines) ==> pipelines@.wf(),
    {
        match analysis {
            Analysis::Unparsed(diagnostic) => Err(CompileError::SyntaxOrValidation(diagnostic)),
            Analysis::Invalid(diagnostic) => Err(CompileError::SyntaxOrValidation(diagnostic)),
            Analysis::Valid(names) => {
                if !distinct(&names) {
                    Err(
                        CompileError::SyntaxOrValidation(
                            "entry point declared more than once".to_owned(),
                        ),
                    )
                } else if names.len() == 0 {
                    Err(CompileError::NoEntryPoints)
                } else {
                    Ok(Pipelines { entry_points: names, current: 0 })
                }
            },
        }
    }

    /// Lets the rest of the crate learn, from a set it holds, that no name
    /// occurs twice in it and that the active name is one of them.
    pub(crate) fn recall_wf(&self)
        ensures
            self@.wf(),
    {
        proof {
            use_type_invariant(self);
            assert(self.entry_points.deep_view()[self.current as int] == self@.current_pipeline);
        }
    }

    /// The entry point names, in declaration order.
    pub fn keys(&self) -> (names: Vec<String>)
        ensures
            names.deep_view() == self@.entry_points,
            self@.wf(),
    {
        self.recall_wf();
        let mut names: Vec<String> = Vec::new();
        let mut i: usize = 0;
        while i < self.entry_points.len()
            invariant
                i <= self.entry_points.len(),
                names.len() == i,
                forall|j: int| 0 <= j < i ==> names[j]@ == self.entry_points[j]@,
            decreases self.entry_points.len() - i,
        {
            names.push(self.entry_points[i].clone());
            i += 1;
        }
        names
    }

    /// The number of entry points; never zero.
    pub fn len(&self) -> (n: usize)
        ensures
            n == self@.entry_points.len(),
            n > 0,
    {
        proof {
            use_type_invariant(self);
        }
        self.entry_points.len()
    }

    /// The name of the active entry point.
    pub fn current_pipeline(&self) -> (name: String)
        ensures
            name@ == self@.current_pipeline,
    {
        proof {
            use_type_invariant(self);
        }
        self.entry_points[self.current].clone()
    }

    /// The slot of the active entry point.
    pub fn current_slot(&self) -> (slot: usize)
        ensures
            is_slot_of(self@.entry_points, self@.current_pipeline, slot as int),
            self@.wf(),
    {
        self.recall_wf();
        proof {
            use_type_invariant(self);
        }
        self.current
    }

    /// The slot of the entry point called `name`, if there is one.
    pub fn position(&self, name: &str) -> (slot: Option<usize>)
        ensures
            match slot {
                Some(i) => is_slot_of(self@.entry_points, name@, i as int),
                None => !self@.entry_points.contains(name@),
            },
    {
        let wanted: String = name.to_owned();
        let mut i: usize = 0;
        while i < self.entry_points.len()
            invariant
                i <= self.entry_points.len(),
                wanted@ == name@,
                forall|j: int| 0 <= j < i ==> self.entry_points[j]@ != name@,
            decreases self.entry_points.len() - i,
        {
            if self.entry_points[i] == wanted {
                return Some(i);
            }
            i += 1;
        }
        None
    }

    /// Whether `name` is one of the entry points.
    pub fn contains(&self, name: &str) -> (found: bool)
        ensures
            found == self@.entry_points.contains(name@),
    {
        self.position(name).is_some()
    }

    /// Makes `name` the active entry point if the set has it, and leaves the
    /// choice as it was if not. Returns whether the set has it.
    pub fn select(&mut self, name: &str) -> (found: bool)
        ensures
            final(self)@ == old(self)@.select(name@),
            found == old(self)@.entry_points.contains(name@),
            final(self)@.wf(),
    {
        self.recall_wf();
        match self.position(name) {
            Some(slot) => {
                self.current = slot;
                proof {
                    assert(self.entry_points.deep_view()[slot as int] == name@);
                }
                true
            },
            None => false,
        }
    }
}

/// Whether no name occurs twice in `names`.
fn distinct(names: &Vec<String>) -> (yes: bool)
    ensures
        yes == names.deep_view().no_duplicates(),
{
    let mut i: usize = 0;
    while i < names.len()
        invariant
            i <= names.len(),
            forall|a: int, b: int| 0 <= a < b < i ==> names[a]@ != names[b]@,
        decreases names.len() - i,
    {
        let mut j: usize = 0;
        while j < i
            invariant
                j <= i < names.len(),
                forall|a: int| 0 <= a < j ==> names[a]@ != names[i as int]@,
            decreases i - j,
        {
            if names[j] == names[i] {
                assert(names.deep_view()[j as int] == names.deep_view()[i as int]);
                return false;
            }
            j += 1;
        }
        i += 1;
    }
    assert forall|a: int, b: int|
        0 <= a < names.deep_view().len() && 0 <= b < names.deep_view().len() && a != b implies names.deep_view()[a]
        != names.deep_view()[b] by {
        if a < b {
            assert(names[a]@ != names[b]@);
        } else {
            assert(names[b]@ != names[a]@);
        }
    }
    true
}

impl CompileError {
    /// The error in words.
    pub fn message(&self) -> (text: String)
        ensures
            text@ == match self@ {
                CompileErrorView::NoEntryPoints => "No entry points found"@,
                CompileErrorView::SyntaxOrValidation(details) => details,
            },
    {
        match self {
            CompileError::NoEntryPoints => "No entry points found".to_owned(),
            CompileError::SyntaxOrValidation(details) => details.clone(),
        }
    }
}

} // verus!
