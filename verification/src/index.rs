//! Parsing sessions, translation units, cursors and the walk over a cursor's
//! descendants.
//!
//! A cursor is held as the values read from the native library for one node
//! of the syntax tree: its kind, its two spellings, whether it lies in the
//! main file, its extent and its children in source order.

use crate::clang::Clang;
use crate::compilation_database::CompileCommand;
use std::marker::PhantomData;
use vstd::prelude::*;

verus! {

/// Whether a session leaves out declarations from precompiled headers.
#[derive(Debug, Clone, Copy, PartialEq, Eq, PartialOrd, Ord, Hash)]
pub enum ExcludePCH {
    On,
    Off,
}

/// Whether a session shows diagnostics.
#[derive(Debug, Clone, Copy, PartialEq, Eq, PartialOrd, Ord, Hash)]
pub enum DisplayDiagnostics {
    On,
    Off,
}

/// A parsing session, told apart by its two policies: whether declarations
/// from precompiled headers are left out, and whether diagnostics are shown.
#[derive(Debug)]
pub struct Index<'clang> {
    exclude_pch: bool,
    display_diagnostics: bool,
    _clang: PhantomData<&'clang Clang>,
}

impl<'clang> Index<'clang> {
    /// Whether the session leaves out declarations from precompiled headers.
    pub closed spec fn excludes_pch(&self) -> bool {
        self.exclude_pch
    }

    /// Whether the session shows diagnostics.
    pub closed spec fn displays_diagnostics(&self) -> bool {
        self.display_diagnostics
    }

    fn new(exclude: ExcludePCH, display: DisplayDiagnostics) -> (index: Self)
        ensures
            index.excludes_pch() == (exclude is On),
            index.displays_diagnostics() == (display is On),
    {
        let exclude_pch = match exclude {
            ExcludePCH::On => true,
            ExcludePCH::Off => false,
        };
        let display_diagnostics = match display {
            DisplayDiagnostics::On => true,
            DisplayDiagnostics::Off => false,
        };
        Index { exclude_pch, display_diagnostics, _clang: PhantomData }
    }

    /// The first flag the native session is made with: 1 when declarations
    /// from precompiled headers are left out, else 0.
    pub fn exclude_pch_flag(&self) -> (flag: i32)
        ensures
            flag == if self.excludes_pch() { 1i32 } else { 0i32 },
    {
        if self.exclude_pch {
            1
        } else {
            0
        }
    }

    /// The second flag the native session is made with: 1 when diagnostics
    /// are shown, else 0.
    pub fn display_diagnostics_flag(&self) -> (flag: i32)
        ensures
            flag == if self.displays_diagnostics() { 1i32 } else { 0i32 },
    {
        if self.display_diagnostics {
            1
        } else {
            0
        }
    }
}

impl Clang {
    /// A session that shows diagnostics and keeps precompiled headers.
    pub fn create_index_with_display_diagnostics(&self) -> (index: Index<'_>)
        ensures
            !index.excludes_pch(),
            index.displays_diagnostics(),
    {
        Index::new(ExcludePCH::Off, DisplayDiagnostics::On)
    }

    /// A session that leaves out precompiled headers and shows no diagnostics.
    pub fn create_index_with_exclude_pch(&self) -> (index: Index<'_>)
        ensures
            index.excludes_pch(),
            !index.displays_diagnostics(),
    {
        Index::new(ExcludePCH::On, DisplayDiagnostics::Off)
    }

    /// A session that leaves out precompiled headers and shows diagnostics.
    pub fn create_index_with_exclude_pch_and_display_diagnostics(&self) -> (index: Index<'_>)
        ensures
            index.excludes_pch(),
            index.displays_diagnostics(),
    {
        Index::new(ExcludePCH::On, DisplayDiagnostics::On)
    }

    /// A session that keeps precompiled headers and shows no diagnostics.
    pub fn create_index(&self) -> (index: Index<'_>)
        ensures
            !index.excludes_pch(),
            !index.displays_diagnostics(),
    {
        Index::new(ExcludePCH::Off, DisplayDiagnostics::Off)
    }
}

/// Reads `clang_sys::CXTranslationUnit_None`, the parser options with no
/// flag set, which the crate defines as 0.
#[verifier::external_body]
fn no_parse_options() -> (options: i32)
    ensures
        options == 0,
{
    clang_sys::CXTranslationUnit_None
}

/// What the native parser is called with to parse the file of a compile
/// command.
#[derive(Debug)]
pub struct ParseRequest {
    source_filename: Option<String>,
    arguments: Vec<String>,
    num_arguments: i32,
    options: i32,
}

/// What a `ParseRequest` stands for.
pub struct ParseCall {
    /// The file to parse where it is named apart from the arguments.
    pub source_filename: Option<Seq<char>>,
    /// The command-line arguments in order.
    pub arguments: Seq<Seq<char>>,
    /// The number of arguments handed over.
    pub num_arguments: int,
    /// The parser's option flags.
    pub options: int,
}

impl View for ParseRequest {
    type V = ParseCall;

    closed spec fn view(&self) -> ParseCall {
        ParseCall {
            source_filename: match self.source_filename {
                Some(name) => Some(name@),
                None => None,
            },
            arguments: self.arguments.deep_view(),
            num_arguments: self.num_arguments as int,
            options: self.options as int,
        }
    }
}

impl ParseRequest {
    /// The file to parse, where it is named apart from the arguments.
    pub fn source_filename(&self) -> (name: Option<String>)
        ensures
            name is Some == self@.source_filename is Some,
            name is Some ==> name->0@ == self@.source_filename->0,
    {
        match &self.source_filename {
            Some(name) => Some(name.clone()),
            None => None,
        }
    }

    /// The command-line arguments in order.
    pub fn arguments(&self) -> (arguments: &Vec<String>)
        ensures
            arguments.deep_view() == self@.arguments,
    {
        &self.arguments
    }

    /// The number of arguments handed over.
    pub fn num_arguments(&self) -> (n: i32)
        ensures
            n == self@.num_arguments,
    {
        self.num_arguments
    }

    /// The parser's option flags.
    pub fn options(&self) -> (options: i32)
        ensures
            options == self@.options,
    {
        self.options
    }
}

/// A parsed or loaded compilation unit: the tree under its root cursor.
#[derive(Debug)]
pub struct TranslationUnit<'index> {
    root: Cursor,
    _index: PhantomData<&'index Index<'index>>,
}

impl<'index> TranslationUnit<'index> {
    /// The root of the unit's syntax tree.
    pub closed spec fn root(&self) -> Cursor {
        self.root
    }

    fn from_raw(root: Cursor) -> (unit: Self)
        ensures
            unit.root() == root,
    {
        TranslationUnit { root, _index: PhantomData }
    }

    /// The root cursor of the unit's syntax tree.
    pub fn create_cursor(&self) -> (cursor: &Cursor)
        ensures
            *cursor == self.root(),
    {
        &self.root
    }
}

impl<'index> Index<'index> {
    /// The translation unit of this session whose syntax tree was read as
    /// `root`.
    pub fn translation_unit(&self, root: Cursor) -> (unit: TranslationUnit<'_>)
        ensures
            unit.root() == root,
    {
        TranslationUnit::from_raw(root)
    }

    /// The call of the native parser for `compile_command`: all of the
    /// command's arguments in their order, no file named apart from them, and
    /// no parser option set.
    pub fn parse_translation_unit_from_compile_command(
        &self,
        compile_command: CompileCommand,
    ) -> (request: ParseRequest)
        requires
            compile_command@.len() <= i32::MAX,
        ensures
            request@ == (ParseCall {
                source_filename: None,
                arguments: compile_command@,
                num_arguments: compile_command@.len() as int,
                options: 0,
            }),
    {
        let num_args = compile_command.get_num_args();
        let arguments = compile_command.into_args();
        ParseRequest {
            source_filename: None,
            arguments,
            num_arguments: num_args as i32,
            options: no_parse_options(),
        }
    }
}

/// The identity of a source or header file: its name.
#[derive(Debug)]
pub struct File {
    name: String,
}

impl File {
    /// The file's name as text.
    pub closed spec fn name(&self) -> Seq<char> {
        self.name@
    }

    /// The file called `name`.
    pub fn new(name: String) -> (file: File)
        ensures
            file.name() == name@,
    {
        File { name }
    }

    /// The file's name.
    pub fn file_name(&self) -> (name: String)
        ensures
            name@ == self.name(),
    {
        self.name.clone()
    }
}

/// A position in readable form: the file, the line and column counted from 1,
/// and the offset in bytes from the start of the file, counted from 0.
#[derive(Debug)]
pub struct SpellingLocation {
    file: String,
    line: u32,
    column: u32,
    offset: u32,
}

/// What a `SpellingLocation` or a `SourceLocation` stands for.
pub struct Position {
    pub file: Seq<char>,
    pub line: int,
    pub column: int,
    pub offset: int,
}

impl View for SpellingLocation {
    type V = Position;

    closed spec fn view(&self) -> Position {
        Position {
            file: self.file@,
            line: self.line as int,
            column: self.column as int,
            offset: self.offset as int,
        }
    }
}

impl SpellingLocation {
    /// The file the position lies in.
    pub fn file(&self) -> (file: File)
        ensures
            file.name() == self@.file,
    {
        File::new(self.file.clone())
    }

    /// The line, counted from 1.
    pub fn line(&self) -> (line: u32)
        ensures
            line == self@.line,
    {
        self.line
    }

    /// The column, counted from 1.
    pub fn column(&self) -> (column: u32)
        ensures
            column == self@.column,
    {
        self.column
    }

    /// The offset in bytes from the start of the file, counted from 0.
    pub fn offset(&self) -> (offset: u32)
        ensures
            offset == self@.offset,
    {
        self.offset
    }
}

/// One end of a source range.
#[derive(Debug)]
pub struct SourceLocation {
    file: File,
    line: u32,
    column: u32,
    offset: u32,
}

impl View for SourceLocation {
    type V = Position;

    closed spec fn view(&self) -> Position {
        Position {
            file: self.file.name(),
            line: self.line as int,
            column: self.column as int,
            offset: self.offset as int,
        }
    }
}

impl SourceLocation {
    /// The location in `file` at the given line, column and offset.
    pub fn new(file: File, line: u32, column: u32, offset: u32) -> (location: SourceLocation)
        ensures
            location@ == (Position {
                file: file.name(),
                line: line as int,
                column: column as int,
                offset: offset as int,
            }),
    {
        SourceLocation { file, line, column, offset }
    }

    /// The location in readable form.
    pub fn spelling_location(&self) -> (spelling: SpellingLocation)
        ensures
            spelling@ == self@,
    {
        SpellingLocation {
            file: self.file.file_name(),
            line: self.line,
            column: self.column,
            offset: self.offset,
        }
    }
}

/// The extent of a cursor: from `start` up to, not including, `end`.
#[derive(Debug)]
pub struct SourceRange {
    start: SourceLocation,
    end: SourceLocation,
}

impl SourceRange {
    /// Where the range begins.
    pub closed spec fn first(&self) -> SourceLocation {
        self.start
    }

    /// Where the range ends.
    pub closed spec fn past(&self) -> SourceLocation {
        self.end
    }

    /// The range from `start` to `end`.
    pub fn new(start: SourceLocation, end: SourceLocation) -> (range: SourceRange)
        ensures
            range.first() == start,
            range.past() == end,
    {
        SourceRange { start, end }
    }

    /// Where the range begins.
    pub fn start(&self) -> (location: &SourceLocation)
        ensures
            *location == self.first(),
    {
        &self.start
    }

    /// Where the range ends.
    pub fn end(&self) -> (location: &SourceLocation)
        ensures
            *location == self.past(),
    {
        &self.end
    }
}

/// The three directives a visitor can answer with, as the codes of the native
/// library.
#[derive(Debug, Default, Clone, Copy, Hash, PartialEq, Eq, PartialOrd, Ord)]
pub struct ChildVisitResult {}

impl ChildVisitResult {
    /// Ends the whole walk at once.
    pub const BREAK: i32 = 0;

    /// Goes on with the next sibling and leaves the node's children out.
    pub const CONTINUE: i32 = 1;

    /// Walks the node's children, then goes on with the next sibling.
    pub const RECURSIVE: i32 = 2;
}

/// Reads `clang_sys::CXCursor_FunctionDecl`, the kind of a function
/// declaration, which the crate defines as 8.
#[verifier::external_body]
fn function_decl_kind() -> (kind: i32)
    ensures
        kind == 8,
{
    clang_sys::CXCursor_FunctionDecl
}

/// Reads `clang_sys::CXCursor_CXXMethod`, the kind of a C++ method, which the
/// crate defines as 21.
#[verifier::external_body]
fn cxx_method_kind() -> (kind: i32)
    ensures
        kind == 21,
{
    clang_sys::CXCursor_CXXMethod
}

/// Reads `clang_sys::CXCursor_FunctionTemplate`, the kind of a function
/// template, which the crate defines as 30.
#[verifier::external_body]
fn function_template_kind() -> (kind: i32)
    ensures
        kind == 30,
{
    clang_sys::CXCursor_FunctionTemplate
}

/// A node of the syntax tree.
#[derive(Debug)]
pub struct Cursor {
    kind: i32,
    kind_spelling: String,
    spelling: String,
    main_file_flag: i32,
    extent: SourceRange,
    children: Vec<Cursor>,
}

impl Cursor {
    /// The native code of the node's kind.
    pub closed spec fn kind(&self) -> int {
        self.kind as int
    }

    /// The readable name of the node's kind.
    pub closed spec fn kind_text(&self) -> Seq<char> {
        self.kind_spelling@
    }

    /// The node's own name or text.
    pub closed spec fn text(&self) -> Seq<char> {
        self.spelling@
    }

    /// What the native library answers when asked whether the node's location
    /// lies in the main file.
    pub closed spec fn main_file_flag(&self) -> int {
        self.main_file_flag as int
    }

    /// The node's extent in the source.
    pub closed spec fn range(&self) -> SourceRange {
        self.extent
    }

    /// The node's direct children in source order.
    pub closed spec fn children(&self) -> Seq<Cursor> {
        self.children@
    }

    /// The node read from the native library as the given values.
    pub fn new(
        kind: i32,
        kind_spelling: String,
        spelling: String,
        main_file_flag: i32,
        extent: SourceRange,
        children: Vec<Cursor>,
    ) -> (cursor: Cursor)
        ensures
            cursor.kind() == kind,
            cursor.kind_text() == kind_spelling@,
            cursor.text() == spelling@,
            cursor.main_file_flag() == main_file_flag,
            cursor.range() == extent,
            cursor.children() == children@,
    {
        Cursor { kind, kind_spelling, spelling, main_file_flag, extent, children }
    }

    /// The readable name of the node's kind.
    pub fn kind_spelling(&self) -> (name: String)
        ensures
            name@ == self.kind_text(),
    {
        self.kind_spelling.clone()
    }

    /// The node's own name or text.
    pub fn spelling(&self) -> (name: String)
        ensures
            name@ == self.text(),
    {
        self.spelling.clone()
    }

    /// True where the native library answers 0 to the question whether the
    /// node's location lies in the main file. Visitors skip the nodes for
    /// which this holds.
    pub fn is_from_main_file(&self) -> (skipped: bool)
        ensures
            skipped == (self.main_file_flag() == 0),
    {
        self.main_file_flag == 0
    }

    /// Whether the node is a function declaration.
    pub open spec fn function_decl(&self) -> bool {
        self.kind() == 8
    }

    /// Whether the node is a C++ method.
    pub open spec fn cxx_method(&self) -> bool {
        self.kind() == 21
    }

    /// Whether the node is a function template.
    pub open spec fn function_template(&self) -> bool {
        self.kind() == 30
    }

    /// Whether the node is a function declaration.
    pub fn is_function_decl(&self) -> (yes: bool)
        ensures
            yes == self.function_decl(),
    {
        function_decl_kind() == self.kind
    }

    /// Whether the node is a C++ method.
    pub fn is_cxx_method(&self) -> (yes: bool)
        ensures
            yes == self.cxx_method(),
    {
        cxx_method_kind() == self.kind
    }

    /// Whether the node is a function template.
    pub fn is_function_template(&self) -> (yes: bool)
        ensures
            yes == self.function_template(),
    {
        function_template_kind() == self.kind
    }

    /// No node is of two of the three kinds at once.
    pub proof fn lemma_function_kinds_exclusive(&self)
        ensures
            !(self.function_decl() && self.cxx_method()),
            !(self.function_decl() && self.function_template()),
            !(self.cxx_method() && self.function_template()),
    {
    }

    /// The node's extent in the source.
    pub fn extent(&self) -> (range: &SourceRange)
        ensures
            *range == self.range(),
    {
        &self.extent
    }

    /// Walks the node's descendants with `visitor` and tells whether the walk
    /// was cut short.
    ///
    /// The visitor is called on each direct child in source order. Its answer
    /// decides what follows: on `BREAK` nothing more is visited, on
    /// `RECURSIVE` the child's own children are walked in the same way before
    /// the next sibling, on `CONTINUE` the next sibling follows at once. The
    /// visitor is the one channel through which results are gathered. A
    /// visitor that walks a child's children itself learns from the result
    /// whether to answer `BREAK` in its turn.
    pub fn visit_children<V: NodeVisitor>(&self, visitor: &mut V) -> (stopped: bool)
        ensures
            V::specified() ==> (WalkEnd { gathered: final(visitor).gathered(), stopped }) == walk::<
                V,
            >(self.children(), *self, old(visitor).gathered()),
    {
        walk_nodes(&self.children, self, visitor)
    }
}

/// What a walk is driven by: a visitor that looks at one node at a time,
/// gathers what it wants in itself, and answers with a directive.
///
/// A visitor whose walks are to be reasoned about says so in `specified` and
/// defines the three specification functions that say what `visit` does. Of
/// a visitor that leaves `specified` as it is given here nothing is claimed
/// but that it answers with one of the three directives.
pub trait NodeVisitor {
    /// What the visitor has gathered, as a mathematical value.
    type Gathered;

    /// Whether `gathered`, `directive` and `shown` say what `visit` does.
    open spec fn specified() -> bool {
        false
    }

    /// What the visitor has gathered so far.
    open spec fn gathered(&self) -> Self::Gathered {
        arbitrary()
    }

    /// The directive a visitor that has gathered `so_far` answers with when
    /// shown `cursor`, a child of `parent`.
    open spec fn directive(so_far: Self::Gathered, cursor: Cursor, parent: Cursor) -> int {
        arbitrary()
    }

    /// What a visitor that has gathered `so_far` holds after it has been
    /// shown `cursor`, a child of `parent`.
    open spec fn shown(so_far: Self::Gathered, cursor: Cursor, parent: Cursor) -> Self::Gathered {
        arbitrary()
    }

    /// Looks at `cursor`, a child of `parent`, and answers with one of
    /// `ChildVisitResult::BREAK`, `CONTINUE` and `RECURSIVE`.
    fn visit(&mut self, cursor: &Cursor, parent: &Cursor) -> (code: i32)
        ensures
            Self::specified() ==> code == Self::directive(old(self).gathered(), *cursor, *parent),
            Self::specified() ==> final(self).gathered() == Self::shown(
                old(self).gathered(),
                *cursor,
                *parent,
            ),
            code == ChildVisitResult::BREAK || code == ChildVisitResult::CONTINUE || code
                == ChildVisitResult::RECURSIVE,
    ;
}

/// How a walk ended: what the visitor has gathered, and whether the walk was
/// cut short by a `BREAK`.
pub struct WalkEnd<G> {
    pub gathered: G,
    pub stopped: bool,
}

/// One call of the visitor during a walk: what it had gathered before, and
/// the node and parent it was shown.
pub struct Visit<G> {
    pub before: G,
    pub cursor: Cursor,
    pub parent: Cursor,
}

/// The walk over `nodes`, the children of `parent` in source order, by a
/// visitor that has gathered `so_far`.
pub open spec fn walk<V: NodeVisitor>(
    nodes: Seq<Cursor>,
    parent: Cursor,
    so_far: V::Gathered,
) -> WalkEnd<V::Gathered>
    decreases nodes,
{
    if nodes.len() == 0 {
        WalkEnd { gathered: so_far, stopped: false }
    } else {
        let code = V::directive(so_far, nodes[0], parent);
        let shown = V::shown(so_far, nodes[0], parent);
        if code == ChildVisitResult::BREAK {
            WalkEnd { gathered: shown, stopped: true }
        } else {
            let below = if code == ChildVisitResult::RECURSIVE {
                walk::<V>(nodes[0].children(), nodes[0], shown)
            } else {
                WalkEnd { gathered: shown, stopped: false }
            };
            if below.stopped {
                below
            } else {
                walk::<V>(nodes.drop_first(), parent, below.gathered)
            }
        }
    }
}

/// The calls of the visitor that the walk over `nodes` makes, in the order
/// in which it makes them.
pub open spec fn visits<V: NodeVisitor>(
    nodes: Seq<Cursor>,
    parent: Cursor,
    so_far: V::Gathered,
) -> Seq<Visit<V::Gathered>>
    decreases nodes,
{
    if nodes.len() == 0 {
        Seq::empty()
    } else {
        let first = Visit { before: so_far, cursor: nodes[0], parent };
        let code = V::directive(so_far, nodes[0], parent);
        let shown = V::shown(so_far, nodes[0], parent);
        if code == ChildVisitResult::BREAK {
            seq![first]
        } else if code == ChildVisitResult::RECURSIVE {
            let below = walk::<V>(nodes[0].children(), nodes[0], shown);
            let inner = visits::<V>(nodes[0].children(), nodes[0], shown);
            if below.stopped {
                seq![first] + inner
            } else {
                seq![first] + inner + visits::<V>(nodes.drop_first(), parent, below.gathered)
            }
        } else {
            seq![first] + visits::<V>(nodes.drop_first(), parent, shown)
        }
    }
}

/// The directive that the visitor gave at `visit`.
pub open spec fn answer<V: NodeVisitor>(visit: Visit<V::Gathered>) -> int {
    V::directive(visit.before, visit.cursor, visit.parent)
}

/// Nothing is visited after a `BREAK`: the one call that can have answered
/// `BREAK` is the last call of the walk, and the walk was cut short exactly
/// when its last call did so.
pub proof fn lemma_break_ends_walk<V: NodeVisitor>(
    nodes: Seq<Cursor>,
    parent: Cursor,
    so_far: V::Gathered,
)
    ensures
        forall|k: int|
            0 <= k < visits::<V>(nodes, parent, so_far).len() && answer::<V>(
                #[trigger] visits::<V>(nodes, parent, so_far)[k],
            ) == ChildVisitResult::BREAK ==> k == visits::<V>(nodes, parent, so_far).len() - 1,
        walk::<V>(nodes, parent, so_far).stopped <==> visits::<V>(nodes, parent, so_far).len() > 0
            && answer::<V>(visits::<V>(nodes, parent, so_far).last()) == ChildVisitResult::BREAK,
    decreases nodes,
{
    if nodes.len() > 0 {
        let code = V::directive(so_far, nodes[0], parent);
        let shown = V::shown(so_far, nodes[0], parent);
        if code == ChildVisitResult::BREAK {
        } else if code == ChildVisitResult::RECURSIVE {
            let below = walk::<V>(nodes[0].children(), nodes[0], shown);
            lemma_break_ends_walk::<V>(nodes[0].children(), nodes[0], shown);
            if !below.stopped {
                lemma_break_ends_walk::<V>(nodes.drop_first(), parent, below.gathered);
            }
        } else {
            lemma_break_ends_walk::<V>(nodes.drop_first(), parent, shown);
        }
    }
}

/// A visitor that answers `BREAK` to the first node it is shown is shown no
/// other node.
pub proof fn lemma_break_on_first_visit<V: NodeVisitor>(
    nodes: Seq<Cursor>,
    parent: Cursor,
    so_far: V::Gathered,
)
    requires
        nodes.len() > 0,
        V::directive(so_far, nodes[0], parent) == ChildVisitResult::BREAK,
    ensures
        visits::<V>(nodes, parent, so_far) == seq![
            Visit { before: so_far, cursor: nodes[0], parent },
        ],
        walk::<V>(nodes, parent, so_far) == (WalkEnd {
            gathered: V::shown(so_far, nodes[0], parent),
            stopped: true,
        }),
{
}

/// A visitor that answers `CONTINUE` throughout is shown each of the nodes
/// once, in their order, and none of their descendants.
pub proof fn lemma_continue_visits_each_child<V: NodeVisitor>(
    nodes: Seq<Cursor>,
    parent: Cursor,
    so_far: V::Gathered,
)
    requires
        forall|g: V::Gathered, c: Cursor, p: Cursor| #[trigger]
            V::directive(g, c, p) == ChildVisitResult::CONTINUE,
    ensures
        visits::<V>(nodes, parent, so_far).len() == nodes.len(),
        forall|k: int|
            0 <= k < nodes.len() ==> (#[trigger] visits::<V>(nodes, parent, so_far)[k]).cursor
                == nodes[k] && visits::<V>(nodes, parent, so_far)[k].parent == parent,
        !walk::<V>(nodes, parent, so_far).stopped,
    decreases nodes,
{
    if nodes.len() > 0 {
        let shown = V::shown(so_far, nodes[0], parent);
        lemma_continue_visits_each_child::<V>(nodes.drop_first(), parent, shown);
    }
}

/// `nodes` and everything below them, each node before its children and
/// each subtree before the next sibling.
pub open spec fn descendants(nodes: Seq<Cursor>) -> Seq<Cursor>
    decreases nodes,
{
    if nodes.len() == 0 {
        Seq::empty()
    } else {
        seq![nodes[0]] + descendants(nodes[0].children()) + descendants(nodes.drop_first())
    }
}

/// A visitor that answers `RECURSIVE` throughout is shown every descendant
/// once, each node before its children and each subtree before the next
/// sibling.
pub proof fn lemma_recursive_visits_every_descendant<V: NodeVisitor>(
    nodes: Seq<Cursor>,
    parent: Cursor,
    so_far: V::Gathered,
)
    requires
        forall|g: V::Gathered, c: Cursor, p: Cursor| #[trigger]
            V::directive(g, c, p) == ChildVisitResult::RECURSIVE,
    ensures
        visits::<V>(nodes, parent, so_far).len() == descendants(nodes).len(),
        forall|k: int|
            0 <= k < descendants(nodes).len() ==> (#[trigger] visits::<V>(
                nodes,
                parent,
                so_far,
            )[k]).cursor == descendants(nodes)[k],
        !walk::<V>(nodes, parent, so_far).stopped,
    decreases nodes,
{
    if nodes.len() > 0 {
        let shown = V::shown(so_far, nodes[0], parent);
        let below = walk::<V>(nodes[0].children(), nodes[0], shown);
        lemma_recursive_visits_every_descendant::<V>(nodes[0].children(), nodes[0], shown);
        lemma_recursive_visits_every_descendant::<V>(nodes.drop_first(), parent, below.gathered);
    }
}

fn walk_nodes<V: NodeVisitor>(nodes: &Vec<Cursor>, parent: &Cursor, visitor: &mut V) -> (stopped:
    bool)
    ensures
        V::specified() ==> (WalkEnd { gathered: final(visitor).gathered(), stopped }) == walk::<V>(
            nodes@,
            *parent,
            old(visitor).gathered(),
        ),
    decreases nodes,
{
    let ghost start = visitor.gathered();
    let mut i: usize = 0;
    assert(nodes@.skip(0) =~= nodes@);
    while i < nodes.len()
        invariant
            i <= nodes.len(),
            start == old(visitor).gathered(),
            V::specified() ==> walk::<V>(nodes@, *parent, start) == walk::<V>(
                nodes@.skip(i as int),
                *parent,
                visitor.gathered(),
            ),
        decreases nodes.len() - i,
    {
        let ghost rest = nodes@.skip(i as int);
        assert(rest[0] == nodes@[i as int]);
        assert(rest.drop_first() =~= nodes@.skip(i + 1));
        let code = visitor.visit(&nodes[i], parent);
        if code == ChildVisitResult::BREAK {
            return true;
        }
        if code == ChildVisitResult::RECURSIVE {
            if walk_nodes(&nodes[i].children, &nodes[i], visitor) {
                return true;
            }
        }
        i = i + 1;
    }
    false
}

/// A visitor that gathers the names of the function declarations, C++ methods
/// and function templates it is shown, in the order of the walk.
///
/// It follows the usual filter: a node for which `is_from_main_file` holds is
/// passed over together with everything below it; every other node is walked
/// into.
#[derive(Debug)]
pub struct FunctionNames {
    names: Vec<String>,
}

impl FunctionNames {
    /// A visitor that has gathered nothing yet.
    pub fn new() -> (finder: Self)
        ensures
            finder.gathered() == Seq::<Seq<char>>::empty(),
    {
        let finder = FunctionNames { names: Vec::new() };
        assert(finder.names.deep_view() =~= Seq::<Seq<char>>::empty());
        finder
    }

    /// The names gathered.
    pub fn into_names(self) -> (names: Vec<String>)
        ensures
            names.deep_view() == self.gathered(),
    {
        self.names
    }
}

impl NodeVisitor for FunctionNames {
    type Gathered = Seq<Seq<char>>;

    open spec fn specified() -> bool {
        true
    }

    closed spec fn gathered(&self) -> Seq<Seq<char>> {
        self.names.deep_view()
    }

    open spec fn directive(so_far: Seq<Seq<char>>, cursor: Cursor, parent: Cursor) -> int {
        if cursor.main_file_flag() == 0 {
            ChildVisitResult::CONTINUE as int
        } else {
            ChildVisitResult::RECURSIVE as int
        }
    }

    open spec fn shown(so_far: Seq<Seq<char>>, cursor: Cursor, parent: Cursor) -> Seq<Seq<char>> {
        if cursor.main_file_flag() != 0 && (cursor.function_decl() || cursor.cxx_method()
            || cursor.function_template()) {
            so_far.push(cursor.text())
        } else {
            so_far
        }
    }

    fn visit(&mut self, cursor: &Cursor, parent: &Cursor) -> (code: i32) {
        if cursor.is_from_main_file() {
            return ChildVisitResult::CONTINUE;
        }
        if cursor.is_cxx_method() || cursor.is_function_decl() || cursor.is_function_template() {
            let name = cursor.spelling();
            let ghost before = self.names.deep_view();
            self.names.push(name);
            assert(self.names.deep_view() =~= before.push(name@));
        }
        ChildVisitResult::RECURSIVE
    }
}

/// The names that a `FunctionNames` visitor gathers from `nodes` and what is
/// below them: of each node that is not passed over, its own name if it is a
/// function declaration, a C++ method or a function template, then the names
/// from its children.
pub open spec fn function_names(nodes: Seq<Cursor>) -> Seq<Seq<char>>
    decreases nodes,
{
    if nodes.len() == 0 {
        Seq::empty()
    } else if nodes[0].main_file_flag() == 0 {
        function_names(nodes.drop_first())
    } else {
        let own = if nodes[0].function_decl() || nodes[0].cxx_method()
            || nodes[0].function_template() {
            seq![nodes[0].text()]
        } else {
            Seq::empty()
        };
        own + function_names(nodes[0].children()) + function_names(nodes.drop_first())
    }
}

/// A walk with a `FunctionNames` visitor is never cut short, and adds to what
/// the visitor held the function names of the nodes walked.
pub proof fn lemma_function_names_gathered(
    nodes: Seq<Cursor>,
    parent: Cursor,
    so_far: Seq<Seq<char>>,
)
    ensures
        walk::<FunctionNames>(nodes, parent, so_far) == (WalkEnd {
            gathered: so_far + function_names(nodes),
            stopped: false,
        }),
    decreases nodes,
{
    if nodes.len() == 0 {
        assert(so_far + function_names(nodes) =~= so_far);
    } else {
        let shown = FunctionNames::shown(so_far, nodes[0], parent);
        if nodes[0].main_file_flag() == 0 {
            lemma_function_names_gathered(nodes.drop_first(), parent, shown);
        } else {
            lemma_function_names_gathered(nodes[0].children(), nodes[0], shown);
            let below = shown + function_names(nodes[0].children());
            lemma_function_names_gathered(nodes.drop_first(), parent, below);
            assert(below + function_names(nodes.drop_first()) =~= so_far + function_names(nodes));
        }
    }
}

} // verus!
