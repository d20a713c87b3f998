//! Flattening a tree of importing documents into one configuration.
//!
//! The documents are read by the caller and held in an [`ImportGraph`]: one
//! node for each document that was looked for, with the documents it
//! imports as its targets. A document may be reached along several paths,
//! and along cycles; loading follows each import anew and is bounded only
//! by the nesting depth. A [`crate::reader::Loader`] fills such a graph.

use crate::config::{Config, ConfigView, CONFIG_FILE_NAME};
use crate::errors::{ConfigError, ErrorView};
use crate::text::opt_text;
use vstd::prelude::*;

verus! {

/// The deepest level at which a document is still loaded; the root is at
/// level 0.
pub const MAX_IMPORT_DEPTH: u8 = 2;

/// What was found where a document was looked for.
#[derive(Debug, Clone, PartialEq, Eq)]
pub enum Document {
    Loaded(Config),
    Failed(ConfigError),
}

/// The view of a [`Document`].
pub enum DocumentView {
    Loaded(ConfigView),
    Failed(ErrorView),
}

impl View for Document {
    type V = DocumentView;

    open spec fn view(&self) -> DocumentView {
        match self {
            Document::Loaded(config) => DocumentView::Loaded(config@),
            Document::Failed(error) => DocumentView::Failed(error@),
        }
    }
}

/// One node of the graph: a document and, in the order of its import list,
/// the nodes of the documents it imports.
pub struct NodeView {
    pub document: DocumentView,
    pub targets: Seq<usize>,
}

/// The documents that a load has looked for, and which of them imports
/// which.
#[derive(Debug, Clone, PartialEq, Eq)]
pub struct ImportGraph {
    documents: Vec<Document>,
    targets: Vec<Vec<usize>>,
}

/// The view of the outcome of a load.
pub open spec fn result_view(r: Result<Config, ConfigError>) -> Result<ConfigView, ErrorView> {
    match r {
        Ok(config) => Ok(config@),
        Err(error) => Err(error@),
    }
}

/// The view of a configuration that may be absent.
pub open spec fn option_view(o: Option<Config>) -> Option<ConfigView> {
    match o {
        Some(config) => Some(config@),
        None => None,
    }
}

/// The result of loading the document at `node`, reached at nesting level
/// `depth`: below the deepest level nothing is loaded; a document that
/// could not be read is an error; otherwise the document itself, merged
/// with what its imports give.
pub open spec fn load_at(graph: Seq<NodeView>, node: int, depth: nat) -> Result<
    ConfigView,
    ErrorView,
>
    decreases 3 - depth, 0nat,
{
    if depth > 2 {
        Err(ErrorView::MaxRecursionDepth)
    } else if !(0 <= node < graph.len()) {
        Err(ErrorView::Unknown)
    } else {
        match graph[node].document {
            DocumentView::Failed(error) => Err(error),
            DocumentView::Loaded(own) => Ok(
                match imported(graph, graph[node].targets, depth + 1) {
                    Some(others) => own.merge(others),
                    None => own,
                },
            ),
        }
    }
}

/// What the imports `targets`, each loaded at level `depth`, give together:
/// those that fail are left out; each later one is merged into what the
/// earlier ones gave. `None` where none of them loads.
pub open spec fn imported(graph: Seq<NodeView>, targets: Seq<usize>, depth: nat) -> Option<
    ConfigView,
>
    decreases 3 - depth, 1 + targets.len(),
{
    if targets.len() == 0 {
        None
    } else {
        let before = imported(graph, targets.drop_last(), depth);
        match load_at(graph, targets.last() as int, depth) {
            Err(_) => before,
            Ok(config) => match before {
                Some(so_far) => Some(so_far.merge(config)),
                None => Some(config),
            },
        }
    }
}

impl View for ImportGraph {
    type V = Seq<NodeView>;

    closed spec fn view(&self) -> Seq<NodeView> {
        Seq::new(
            self.documents.len() as nat,
            |i: int| NodeView { document: self.documents[i]@, targets: self.targets[i]@ },
        )
    }
}

impl ImportGraph {
    /// Every document has its list of targets, and every target is a node.
    pub closed spec fn wf(self) -> bool {
        &&& self.targets.len() == self.documents.len()
        &&& forall|i: int, j: int|
            0 <= i < self.targets.len() && 0 <= j < self.targets[i].len()
                ==> #[trigger] self.targets[i][j] < self.documents.len()
    }

    /// A graph without documents.
    pub fn new() -> (g: ImportGraph)
        ensures
            g.wf(),
            g@ == Seq::<NodeView>::empty(),
    {
        let g = ImportGraph { documents: Vec::new(), targets: Vec::new() };
        g
    }

    /// A graph has no more documents than a machine can count.
    pub proof fn lemma_len_is_bounded(self)
        ensures
            self@.len() <= usize::MAX,
    {
    }

    /// The number of documents.
    pub fn len(&self) -> (n: usize)
        ensures
            n == self@.len(),
    {
        self.documents.len()
    }

    /// Adds a document, so far without targets, and returns its node.
    pub fn add(&mut self, document: Document) -> (node: usize)
        requires
            old(self).wf(),
        ensures
            final(self).wf(),
            node == old(self)@.len(),
            final(self)@ == old(self)@.push(
                NodeView { document: document@, targets: Seq::empty() },
            ),
    {
        let node = self.documents.len();
        self.documents.push(document);
        self.targets.push(Vec::new());
        node
    }

    /// Records that the document at `from` imports, after the imports
    /// recorded before, the document at `to`. Nothing changes, and the
    /// result is `false`, where one of the two is no node of the graph.
    pub fn link(&mut self, from: usize, to: usize) -> (linked: bool)
        requires
            old(self).wf(),
        ensures
            final(self).wf(),
            linked == (from < old(self)@.len() && to < old(self)@.len()),
            linked ==> final(self)@ == old(self)@.update(
                from as int,
                NodeView {
                    document: old(self)@[from as int].document,
                    targets: old(self)@[from as int].targets.push(to),
                },
            ),
            !linked ==> final(self)@ == old(self)@,
    {
        if from < self.documents.len() && to < self.documents.len() {
            self.targets[from].push(to);
            true
        } else {
            false
        }
    }
}

impl Config {
    /// Loads the document at `node`, reached at nesting level `depth`,
    /// together with everything it imports.
    ///
    /// The rules of the result are the document's own, followed by those of
    /// its imports in the order of the import list. An option that the
    /// document sets itself stands; one it leaves open is taken from the
    /// first import that sets it. An import that fails, or that lies below
    /// the deepest level, contributes nothing.
    pub fn load_from(graph: &ImportGraph, node: usize, depth: u8) -> (r: Result<
        Config,
        ConfigError,
    >)
        requires
            graph.wf(),
        ensures
            result_view(r) == load_at(graph@, node as int, depth as nat),
            depth > MAX_IMPORT_DEPTH ==> r matches Err(ConfigError::MaxRecursionDepth),
            r is Ok <==> depth <= MAX_IMPORT_DEPTH && node < graph@.len()
                && graph@[node as int].document is Loaded,
        decreases 3 - depth,
    {
        if depth > MAX_IMPORT_DEPTH {
            return Err(ConfigError::MaxRecursionDepth);
        }
        if node >= graph.documents.len() {
            return Err(ConfigError::Unknown);
        }
        match &graph.documents[node] {
            Document::Failed(error) => Err(error.duplicate()),
            Document::Loaded(own) => {
                let mut this_config = own.duplicate();
                let targets = &graph.targets[node];
                let mut gathered: Option<Config> = None;
                let mut i: usize = 0;
                while i < targets.len()
                    invariant
                        graph.wf(),
                        depth <= 2,
                        i <= targets.len(),
                        targets@ == graph@[node as int].targets,
                        option_view(gathered) == imported(
                            graph@,
                            targets@.take(i as int),
                            (depth + 1) as nat,
                        ),
                    decreases targets.len() - i,
                {
                    assert(targets@.take(i + 1).drop_last() =~= targets@.take(i as int));
                    match Config::load_from(graph, targets[i], depth + 1) {
                        Ok(config) => {
                            gathered = Some(
                                match gathered {
                                    Some(mut so_far) => {
                                        so_far.merge(config);
                                        so_far
                                    },
                                    None => config,
                                },
                            );
                        },
                        Err(_) => {},
                    }
                    i += 1;
                }
                assert(targets@.take(i as int) =~= targets@);
                match gathered {
                    Some(others) => {
                        this_config.merge(others);
                    },
                    None => {},
                }
                Ok(this_config)
            },
        }
    }

    /// Loads the root document at `root` with everything it imports. This
    /// fails only where the root document itself could not be read.
    pub fn load(graph: &ImportGraph, root: usize) -> (r: Result<Config, ConfigError>)
        requires
            graph.wf(),
        ensures
            result_view(r) == load_at(graph@, root as int, 0),
            r is Ok <==> root < graph@.len() && graph@[root as int].document is Loaded,
    {
        Config::load_from(graph, root, 0)
    }
}

/// What to do after the first attempt to load a configuration.
#[derive(Debug)]
pub enum Attempt {
    /// The attempt stands, whether it succeeded or failed.
    Finished(Result<Config, ConfigError>),
    /// The root document does not exist yet: write the default document
    /// in its place and load once more.
    CreateDefault,
}

/// Where the root document lies: at `override_path` where one is given,
/// else under the name [`CONFIG_FILE_NAME`] in `config_dir`.
pub open spec fn location(override_path: Option<Seq<char>>, config_dir: Option<Seq<char>>)
    -> Result<Seq<char>, ErrorView> {
    match override_path {
        Some(path) => Ok(path),
        None => match config_dir {
            Some(dir) => Ok(dir + "/"@ + CONFIG_FILE_NAME@),
            None => Err(ErrorView::UndeterminableConfigLocation),
        },
    }
}

/// Decides where the root document lies, from the override that the
/// environment may give and the platform's configuration directory.
pub fn config_location(override_path: Option<String>, config_dir: Option<String>) -> (r: Result<
    String,
    ConfigError,
>)
    ensures
        match location(opt_text(override_path), opt_text(config_dir)) {
            Ok(path) => r matches Ok(p) && p@ == path,
            Err(error) => r matches Err(e) && e@ == error,
        },
{
    match override_path {
        Some(path) => Ok(path),
        None => match config_dir {
            Some(dir) => Ok(dir.concat("/").concat(CONFIG_FILE_NAME)),
            None => Err(ConfigError::UndeterminableConfigLocation),
        },
    }
}

impl Config {
    /// Loads the root document at `root`. Where that fails because the
    /// document does not exist, the answer is to create the default
    /// document; every other outcome stands as it is.
    pub fn load_or_default(graph: &ImportGraph, root: usize) -> (a: Attempt)
        requires
            graph.wf(),
        ensures
            match load_at(graph@, root as int, 0) {
                Ok(config) => a matches Attempt::Finished(Ok(c)) && c@ == config,
                Err(error) => if error.is_missing_file() {
                    a is CreateDefault
                } else {
                    a matches Attempt::Finished(Err(e)) && e@ == error
                },
            },
    {
        match Config::load(graph, root) {
            Ok(config) => Attempt::Finished(Ok(config)),
            Err(error) => if error.is_missing_file() {
                Attempt::CreateDefault
            } else {
                Attempt::Finished(Err(error))
            },
        }
    }
}

/// A node that holds the document `config` and imports `targets`.
pub open spec fn loaded(config: ConfigView, targets: Seq<usize>) -> NodeView {
    NodeView { document: DocumentView::Loaded(config), targets }
}

/// Merging is associative: what is merged first does not matter, only the
/// order of the documents.
pub proof fn lemma_merge_associative(a: ConfigView, b: ConfigView, c: ConfigView)
    ensures
        a.merge(b).merge(c) == a.merge(b.merge(c)),
{
    assert((a.dates + b.dates) + c.dates =~= a.dates + (b.dates + c.dates));
}

/// An option that the importing document sets is never replaced, and of
/// two imports the earlier decides an option that both set.
pub proof fn lemma_merge_precedence(own: ConfigView, first: ConfigView, second: ConfigView)
    ensures
        own.multiple_behavior is Some ==> own.merge(first.merge(second)).multiple_behavior
            == own.multiple_behavior,
        own.week_start_day is Some ==> own.merge(first.merge(second)).week_start_day
            == own.week_start_day,
        own.multiple_behavior is None && first.multiple_behavior is Some ==> own.merge(
            first.merge(second),
        ).multiple_behavior == first.multiple_behavior,
        own.week_start_day is None && first.week_start_day is Some ==> own.merge(
            first.merge(second),
        ).week_start_day == first.week_start_day,
        own.merge(first.merge(second)).dates == own.dates + first.dates + second.dates,
{
}

/// Below the deepest level every document fails, whatever it holds.
pub proof fn lemma_depth_is_bounded(graph: Seq<NodeView>, node: int, depth: nat)
    requires
        depth > MAX_IMPORT_DEPTH,
    ensures
        load_at(graph, node, depth) == Err::<ConfigView, ErrorView>(ErrorView::MaxRecursionDepth),
{
}

/// Within the deepest level a document that was read always loads: no
/// failure among its imports makes it fail.
pub proof fn lemma_imports_never_fail_the_importer(graph: Seq<NodeView>, node: int, depth: nat)
    requires
        depth <= MAX_IMPORT_DEPTH,
        0 <= node < graph.len(),
        graph[node].document is Loaded,
    ensures
        load_at(graph, node, depth) is Ok,
{
}

/// A document with exactly one import gets what that import loads to, or
/// stays as it is where the import fails.
pub proof fn lemma_single_import(graph: Seq<NodeView>, target: usize, depth: nat)
    ensures
        imported(graph, seq![target], depth) == match load_at(graph, target as int, depth) {
            Ok(config) => Some(config),
            Err(_) => None,
        },
{
    let targets = seq![target];
    assert(imported(graph, targets.drop_last(), depth) is None);
}

/// A chain of imports is followed for two levels below the root: the root
/// and its two nested imports are merged in that order, and what the third
/// level holds is left out.
pub proof fn lemma_chain_stops_after_two_levels(
    root: ConfigView,
    first: ConfigView,
    second: ConfigView,
    third: ConfigView,
)
    ensures
        load_at(
            seq![
                loaded(root, seq![1usize]),
                loaded(first, seq![2usize]),
                loaded(second, seq![3usize]),
                loaded(third, Seq::empty()),
            ],
            0,
            0,
        ) == Ok::<ConfigView, ErrorView>(root.merge(first.merge(second))),
{
    let graph = seq![
        loaded(root, seq![1usize]),
        loaded(first, seq![2usize]),
        loaded(second, seq![3usize]),
        loaded(third, Seq::empty()),
    ];
    lemma_single_import(graph, 3, 3);
    lemma_single_import(graph, 2, 2);
    lemma_single_import(graph, 1, 1);
}

/// Two documents that import each other load: the walk from the root goes
/// to the other document and back to the root once, and ends there.
pub proof fn lemma_cycle_ends(root: ConfigView, other: ConfigView)
    ensures
        load_at(seq![loaded(root, seq![1usize]), loaded(other, seq![0usize])], 0, 0) == Ok::<
            ConfigView,
            ErrorView,
        >(root.merge(other.merge(root))),
{
    let graph = seq![loaded(root, seq![1usize]), loaded(other, seq![0usize])];
    lemma_single_import(graph, 1, 3);
    lemma_single_import(graph, 0, 2);
    lemma_single_import(graph, 1, 1);
}

} // verus!
