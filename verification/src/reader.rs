//! Reading a root document and its imports, one document at a time.
//!
//! A [`Loader`] says which document it needs next; the caller reads it and
//! hands it over. The documents are asked for in the order in which their
//! imports are written, each import with its own imports before the next,
//! and no document is asked for below the deepest level. What was read
//! ends up in an [`ImportGraph`], ready to be loaded.

use crate::store::{Document, DocumentView, ImportGraph, NodeView, MAX_IMPORT_DEPTH};
use crate::text::{opt_text, texts};
use vstd::prelude::*;

verus! {

/// The node that the root document gets: it is read first.
pub const ROOT: usize = 0;

/// What the caller is asked to read next.
#[derive(Debug, Clone, PartialEq, Eq)]
pub enum Reading {
    /// The document at `path`. For an import, `importer` is the node of
    /// the document that names it, and the path is meant relative to the
    /// place of that document; for the root document there is no importer.
    Read { importer: Option<usize>, path: String },
    /// Nothing is left to read.
    Done,
}

/// The view of a [`Reading`].
pub enum ReadingView {
    Read { importer: Option<usize>, path: Seq<char> },
    Done,
}

impl View for Reading {
    type V = ReadingView;

    open spec fn view(&self) -> ReadingView {
        match self {
            Reading::Read { importer, path } => ReadingView::Read {
                importer: *importer,
                path: path@,
            },
            Reading::Done => ReadingView::Done,
        }
    }
}

/// A document whose imports are being read.
struct Frame {
    node: usize,
    imports: Vec<String>,
    next: usize,
}

/// A document whose imports are being read: its node, its import list,
/// and how many of the imports were read.
pub struct FrameView {
    pub node: usize,
    pub imports: Seq<Seq<char>>,
    pub next: int,
}

/// The view of a [`Loader`]: the graph as far as it is read, the documents
/// on the way from the root to the import that is read next, and the path
/// of the root document while that is still to be read.
pub struct LoaderView {
    pub graph: Seq<NodeView>,
    pub open: Seq<FrameView>,
    pub root: Option<Seq<char>>,
}

/// The import list of a document; a document that could not be read has
/// none.
pub open spec fn imports_of(document: DocumentView) -> Seq<Seq<char>> {
    match document {
        DocumentView::Loaded(config) => config.imports,
        DocumentView::Failed(_) => Seq::empty(),
    }
}

impl LoaderView {
    /// The loader before anything is read.
    pub open spec fn initial(root: Seq<char>) -> LoaderView {
        LoaderView { graph: Seq::empty(), open: Seq::empty(), root: Some(root) }
    }

    /// Nothing is left to read.
    pub open spec fn done(self) -> bool {
        self.root is None && self.open.len() == 0
    }

    /// The open documents lie on one path of the graph, none below the
    /// level whose imports may still be read, and each has as many targets
    /// as imports of it were read.
    pub open spec fn inv(self) -> bool {
        &&& self.root is Some ==> self.graph.len() == 0 && self.open.len() == 0
        &&& self.open.len() <= MAX_IMPORT_DEPTH
        &&& forall|i: int|
            0 <= i < self.open.len() ==> {
                let frame = #[trigger] self.open[i];
                &&& frame.node < self.graph.len()
                &&& imports_of(self.graph[frame.node as int].document) == frame.imports
                &&& 0 <= frame.next <= frame.imports.len()
                &&& self.graph[frame.node as int].targets.len() == frame.next
            }
        &&& forall|i: int, j: int|
            0 <= i < j < self.open.len() ==> self.open[i].node < self.open[j].node
    }

    /// The innermost open document has an import left to read.
    pub open spec fn at_rest(self) -> bool {
        self.open.len() > 0 ==> self.open.last().next < self.open.last().imports.len()
    }

    /// What is to be read next: the root document first, then the next
    /// import of the innermost open document.
    pub open spec fn request(self) -> ReadingView {
        match self.root {
            Some(path) => ReadingView::Read { importer: None, path },
            None => if self.open.len() > 0 {
                ReadingView::Read {
                    importer: Some(self.open.last().node),
                    path: self.open.last().imports[self.open.last().next],
                }
            } else {
                ReadingView::Done
            },
        }
    }

    /// Open documents whose imports are all read are closed, innermost
    /// first.
    pub open spec fn settled(self) -> LoaderView
        decreases self.open.len(),
    {
        if self.open.len() > 0 && self.open.last().next >= self.open.last().imports.len() {
            (LoaderView { open: self.open.drop_last(), ..self }).settled()
        } else {
            self
        }
    }

    /// The loader after a document is added as a new node and as a target
    /// of the innermost open document, whose next import is then due. The
    /// new document is opened where it has imports and lies above the
    /// deepest level.
    pub open spec fn linked(self, document: DocumentView) -> LoaderView {
        let node = self.graph.len() as usize;
        let added = self.graph.push(NodeView { document, targets: Seq::empty() });
        let frame = FrameView { node, imports: imports_of(document), next: 0 };
        let top = self.open.last();
        let advanced = self.open.update(
            self.open.len() - 1,
            FrameView { next: top.next + 1, ..top },
        );
        LoaderView {
            graph: added.update(
                top.node as int,
                NodeView {
                    document: added[top.node as int].document,
                    targets: added[top.node as int].targets.push(node),
                },
            ),
            open: if frame.imports.len() > 0 && self.open.len() < MAX_IMPORT_DEPTH {
                advanced.push(frame)
            } else {
                advanced
            },
            root: None,
        }
    }

    /// The loader after the document that it asked for is handed over. The
    /// document becomes a new node, and a target of the document that
    /// imports it. Its own imports are read next where it has any and lies
    /// above the deepest level.
    pub open spec fn supplied(self, document: DocumentView) -> LoaderView {
        let node = self.graph.len() as usize;
        let frame = FrameView { node, imports: imports_of(document), next: 0 };
        if self.root is Some {
            LoaderView {
                graph: self.graph.push(NodeView { document, targets: Seq::empty() }),
                open: if frame.imports.len() > 0 {
                    seq![frame]
                } else {
                    Seq::empty()
                },
                root: None,
            }
        } else if self.open.len() > 0 {
            self.linked(document).settled()
        } else {
            self
        }
    }
}

/// Settling keeps the loader consistent and brings it to rest.
pub proof fn lemma_settled_keeps_inv(loader: LoaderView)
    requires
        loader.inv(),
    ensures
        loader.settled().inv(),
        loader.settled().at_rest(),
        loader.settled().graph == loader.graph,
        loader.settled().root == loader.root,
    decreases loader.open.len(),
{
    if loader.open.len() > 0 && loader.open.last().next >= loader.open.last().imports.len() {
        let closed = LoaderView { open: loader.open.drop_last(), ..loader };
        lemma_settled_keeps_inv(closed);
    }
}

/// Adding and linking a document keeps the loader consistent.
pub proof fn lemma_linked_keeps_inv(loader: LoaderView, document: DocumentView)
    requires
        loader.inv(),
        loader.at_rest(),
        loader.root is None,
        loader.open.len() > 0,
        loader.graph.len() <= usize::MAX,
    ensures
        loader.linked(document).inv(),
{
    let after = loader.linked(document);
    assert forall|i: int| 0 <= i < after.open.len() implies {
        let f = #[trigger] after.open[i];
        &&& f.node < after.graph.len()
        &&& imports_of(after.graph[f.node as int].document) == f.imports
        &&& 0 <= f.next <= f.imports.len()
        &&& after.graph[f.node as int].targets.len() == f.next
    } by {
        if i < loader.open.len() {
            assert(loader.open[i].node < loader.graph.len());
        }
    }
}

/// Handing a document over keeps the loader consistent and at rest: it
/// never opens a document below the level whose imports may be read.
pub proof fn lemma_supplied_keeps_inv(loader: LoaderView, document: DocumentView)
    requires
        loader.inv(),
        loader.at_rest(),
        loader.graph.len() <= usize::MAX,
    ensures
        loader.supplied(document).inv(),
        loader.supplied(document).at_rest(),
        loader.supplied(document).root is None,
{
    if loader.root is None && loader.open.len() > 0 {
        lemma_linked_keeps_inv(loader, document);
        lemma_settled_keeps_inv(loader.linked(document));
    }
}

impl LoaderView {
    /// The account of the documents read so far, where no document lists
    /// more than `n` imports: one root, one document for each import of
    /// the root that was read, and at most `n` below each of those.
    pub open spec fn counted(self, n: nat) -> bool {
        &&& forall|i: int| 0 <= i < self.open.len() ==> (#[trigger] self.open[i]).imports.len() <= n
        &&& if self.root is Some {
            self.graph.len() == 0
        } else if self.open.len() == 0 {
            self.graph.len() <= 1 + n + n * n
        } else if self.open.len() == 1 {
            self.graph.len() <= 1 + self.open[0].next + self.open[0].next * n
        } else {
            &&& self.open[0].next >= 1
            &&& self.graph.len() <= 1 + self.open[0].next + (self.open[0].next - 1) * n
                + self.open[1].next
        }
    }
}

/// Before anything is read the loader is consistent, and its account
/// holds for every bound.
pub proof fn lemma_initial_is_counted(root: Seq<char>, n: nat)
    ensures
        LoaderView::initial(root).inv(),
        LoaderView::initial(root).at_rest(),
        LoaderView::initial(root).counted(n),
{
}

/// Settling keeps the account of the documents read.
pub proof fn lemma_settled_keeps_count(loader: LoaderView, n: nat)
    requires
        loader.inv(),
        loader.counted(n),
    ensures
        loader.settled().counted(n),
    decreases loader.open.len(),
{
    if loader.open.len() > 0 && loader.open.last().next >= loader.open.last().imports.len() {
        let closed = LoaderView { open: loader.open.drop_last(), ..loader };
        let top = loader.open.last();
        assert(top.next <= n);
        if loader.open.len() == 1 {
            assert(top.next * n <= n * n) by (nonlinear_arith)
                requires
                    0 <= top.next <= n,
            ;
        } else {
            let root = loader.open[0];
            assert(closed.open[0] == root);
            assert((root.next - 1) * n + n == root.next * n) by (nonlinear_arith);
        }
        assert(closed.counted(n));
        lemma_settled_keeps_count(closed, n);
    }
}

/// Handing a document over keeps the account of the documents read, as
/// long as the document lists no more than `n` imports.
pub proof fn lemma_supplied_keeps_count(loader: LoaderView, document: DocumentView, n: nat)
    requires
        loader.inv(),
        loader.at_rest(),
        loader.counted(n),
        loader.graph.len() <= usize::MAX,
        imports_of(document).len() <= n,
    ensures
        loader.supplied(document).counted(n),
{
    if loader.root is None && loader.open.len() > 0 {
        let top = loader.open.last();
        let after = loader.linked(document);
        lemma_linked_keeps_inv(loader, document);
        assert(after.counted(n)) by {
            if loader.open.len() == 1 {
                assert((top.next + 1) * n == top.next * n + n) by (nonlinear_arith);
            }
        }
        lemma_settled_keeps_count(after, n);
    }
}

/// However many documents import each other, and in whatever way: where
/// none lists more than `n` imports, no more than the root, its imports
/// and their imports are read.
pub proof fn lemma_documents_read_are_bounded(loader: LoaderView, n: nat)
    requires
        loader.inv(),
        loader.counted(n),
    ensures
        loader.graph.len() <= 1 + n + n * n,
{
    if loader.root is None && loader.open.len() > 0 {
        let root = loader.open[0];
        assert(root.next <= n);
        assert(root.next * n <= n * n) by (nonlinear_arith)
            requires
                0 <= root.next <= n,
        ;
        if loader.open.len() > 1 {
            assert(loader.open[1].next <= n);
            assert((root.next - 1) * n + n == root.next * n) by (nonlinear_arith);
        }
    }
}

/// Reads a configuration into an import graph, one document at a time.
pub struct Loader {
    graph: ImportGraph,
    open: Vec<Frame>,
    root: Option<String>,
}

impl View for Loader {
    type V = LoaderView;

    closed spec fn view(&self) -> LoaderView {
        LoaderView {
            graph: self.graph@,
            open: Seq::new(
                self.open.len() as nat,
                |i: int|
                    FrameView {
                        node: self.open[i].node,
                        imports: texts(self.open[i].imports@),
                        next: self.open[i].next as int,
                    },
            ),
            root: opt_text(self.root),
        }
    }
}

impl Loader {
    /// The loader is consistent and either waits for a document or is
    /// done.
    pub closed spec fn wf(self) -> bool {
        self.graph.wf() && self@.inv() && self@.at_rest()
    }

    /// A loader that reads the root document at `root` first.
    pub fn new(root: String) -> (loader: Loader)
        ensures
            loader.wf(),
            loader@ == LoaderView::initial(root@),
    {
        let loader = Loader { graph: ImportGraph::new(), open: Vec::new(), root: Some(root) };
        assert(loader@.open =~= Seq::empty());
        loader
    }

    /// The document to read next.
    pub fn request(&self) -> (r: Reading)
        requires
            self.wf(),
        ensures
            r@ == self@.request(),
            r is Done == self@.done(),
    {
        match &self.root {
            Some(path) => Reading::Read { importer: None, path: path.clone() },
            None => if self.open.len() > 0 {
                let top = &self.open[self.open.len() - 1];
                Reading::Read { importer: Some(top.node), path: top.imports[top.next].clone() }
            } else {
                Reading::Done
            },
        }
    }

    fn settle(&mut self)
        requires
            old(self).graph.wf(),
            old(self)@.inv(),
        ensures
            final(self)@ == old(self)@.settled(),
            final(self).wf(),
    {
        proof {
            lemma_settled_keeps_inv(self@);
        }
        while self.open.len() > 0 && self.open[self.open.len() - 1].next
            >= self.open[self.open.len() - 1].imports.len()
            invariant
                self.graph.wf(),
                self@.settled() == old(self)@.settled(),
            decreases self.open.len(),
        {
            let ghost before = self@;
            self.open.pop();
            assert(self@.open =~= before.open.drop_last());
        }
    }

    /// Hands over the document that was asked for: the configuration that
    /// was read, or why it could not be read. The result is the node that
    /// the document got in the graph; `None`, and nothing changes, where
    /// no document was asked for.
    pub fn supply(&mut self, document: Document) -> (node: Option<usize>)
        requires
            old(self).wf(),
        ensures
            final(self).wf(),
            final(self)@ == old(self)@.supplied(document@),
            node == if old(self)@.done() {
                None
            } else {
                Some(old(self)@.graph.len() as usize)
            },
            old(self)@.root is Some ==> node == Some(ROOT),
    {
        if self.root.is_none() && self.open.len() == 0 {
            return None;
        }
        proof {
            self.graph.lemma_len_is_bounded();
            lemma_supplied_keeps_inv(self@, document@);
        }
        let imports: Vec<String> = match &document {
            Document::Loaded(config) => config.imports.clone(),
            Document::Failed(_) => Vec::new(),
        };
        let has_imports = imports.len() > 0;
        let node = self.graph.add(document);
        let frame = Frame { node, imports, next: 0 };
        if self.root.is_some() {
            self.root = None;
            if has_imports {
                self.open.push(frame);
            }
            assert(self@.open =~= old(self)@.supplied(document@).open);
        } else {
            let last = self.open.len() - 1;
            let parent = self.open[last].node;
            self.graph.link(parent, node);
            assert(self.open[last as int].next < self.open[last as int].imports.len());
            self.open[last].next = self.open[last].next + 1;
            if has_imports && self.open.len() < MAX_IMPORT_DEPTH as usize {
                self.open.push(frame);
            }
            let ghost top = old(self)@.open.last();
            let ghost advanced = old(self)@.open.update(
                old(self)@.open.len() - 1,
                FrameView { next: top.next + 1, ..top },
            );
            assert(self@.open =~= if has_imports && old(self)@.open.len() < MAX_IMPORT_DEPTH {
                advanced.push(
                    FrameView { node, imports: imports_of(document@), next: 0 },
                )
            } else {
                advanced
            });
            self.settle();
        }
        Some(node)
    }

    /// The graph as far as it is read.
    pub fn graph(&self) -> (g: &ImportGraph)
        requires
            self.wf(),
        ensures
            g.wf(),
            g@ == self@.graph,
    {
        &self.graph
    }
}

} // verus!
