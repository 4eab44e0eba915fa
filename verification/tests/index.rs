use clang_rs_binding::clang::{Clang, LoadCount};
use clang_rs_binding::index::{
    ChildVisitResult, Cursor, DisplayDiagnostics, ExcludePCH, File, FunctionNames, NodeVisitor,
    SourceLocation, SourceRange,
};
use clang_rs_binding::utility::traits::{
    is_ffi_struct, is_small_value_enum, is_small_value_struct,
};

const TRANSLATION_UNIT: i32 = 350;
const FUNCTION_DECL: i32 = 8;
const CXX_METHOD: i32 = 21;
const FUNCTION_TEMPLATE: i32 = 30;
const PARM_DECL: i32 = 10;
const COMPOUND_STMT: i32 = 202;

fn guard(count: &mut LoadCount) -> Clang {
    Clang::new(count, Ok(())).unwrap()
}

fn location(file: &str, line: u32, column: u32, offset: u32) -> SourceLocation {
    SourceLocation::new(File::new(file.to_string()), line, column, offset)
}

fn node(kind: i32, kind_spelling: &str, spelling: &str, children: Vec<Cursor>) -> Cursor {
    Cursor::new(
        kind,
        kind_spelling.to_string(),
        spelling.to_string(),
        1,
        SourceRange::new(location("main.cpp", 1, 1, 0), location("main.cpp", 1, 2, 1)),
        children,
    )
}

fn header_node(kind: i32, kind_spelling: &str, spelling: &str, children: Vec<Cursor>) -> Cursor {
    Cursor::new(
        kind,
        kind_spelling.to_string(),
        spelling.to_string(),
        0,
        SourceRange::new(location("header.h", 1, 1, 0), location("header.h", 1, 2, 1)),
        children,
    )
}

/// ```text
/// root
/// |- a
/// |  |- a1
/// |  |  `- a1x
/// |  `- a2
/// |- b
/// `- c
///    `- c1
/// ```
fn sample_tree() -> Cursor {
    node(
        TRANSLATION_UNIT,
        "TranslationUnit",
        "root",
        vec![
            node(
                FUNCTION_TEMPLATE,
                "FunctionTemplate",
                "a",
                vec![
                    node(
                        PARM_DECL,
                        "ParmDecl",
                        "a1",
                        vec![node(COMPOUND_STMT, "CompoundStmt", "a1x", vec![])],
                    ),
                    node(FUNCTION_DECL, "FunctionDecl", "a2", vec![]),
                ],
            ),
            node(CXX_METHOD, "CXXMethod", "b", vec![]),
            node(
                FUNCTION_DECL,
                "FunctionDecl",
                "c",
                vec![node(PARM_DECL, "ParmDecl", "c1", vec![])],
            ),
        ],
    )
}

/// Records each node it is shown and answers as `answer` tells.
struct Recorder<F: Fn(&Cursor) -> i32> {
    answer: F,
    seen: Vec<(String, String)>,
}

impl<F: Fn(&Cursor) -> i32> NodeVisitor for Recorder<F> {
    type Gathered = ();

    fn visit(&mut self, cursor: &Cursor, parent: &Cursor) -> i32 {
        self.seen.push((cursor.spelling(), parent.spelling()));
        (self.answer)(cursor)
    }
}

fn record<F: Fn(&Cursor) -> i32>(root: &Cursor, answer: F) -> Vec<(String, String)> {
    let mut recorder = Recorder { answer, seen: Vec::new() };
    root.visit_children(&mut recorder);
    recorder.seen
}

fn pairs(list: &[(&str, &str)]) -> Vec<(String, String)> {
    list.iter().map(|(a, b)| (a.to_string(), b.to_string())).collect()
}

#[test]
fn index_traits() {
    let mut count = LoadCount::new();
    let clang = guard(&mut count);

    let exclude_pch = ExcludePCH::On;
    is_small_value_enum(&exclude_pch);

    let display_diag = DisplayDiagnostics::On;
    is_small_value_enum(&display_diag);

    let index = clang.create_index();
    is_ffi_struct(&index);

    let tu = index.translation_unit(sample_tree());
    is_ffi_struct(&tu);

    let cursor = tu.create_cursor();
    is_ffi_struct(cursor);

    let child_visit_result = ChildVisitResult {};
    is_small_value_struct(&child_visit_result);

    let source_range = cursor.extent();
    is_ffi_struct(source_range);

    let source_location = source_range.start();
    is_ffi_struct(source_location);

    let spelling_location = source_location.spelling_location();
    is_ffi_struct(&spelling_location);

    let file = spelling_location.file();
    is_ffi_struct(&file);
}

#[test]
fn directives_are_the_native_codes() {
    assert_eq!(ChildVisitResult::BREAK, clang_sys::CXChildVisit_Break);
    assert_eq!(ChildVisitResult::CONTINUE, clang_sys::CXChildVisit_Continue);
    assert_eq!(ChildVisitResult::RECURSIVE, clang_sys::CXChildVisit_Recurse);
    assert_eq!(ChildVisitResult::BREAK, 0);
    assert_eq!(ChildVisitResult::CONTINUE, 1);
    assert_eq!(ChildVisitResult::RECURSIVE, 2);
}

#[test]
fn four_presets_cover_the_two_flags() {
    let mut count = LoadCount::new();
    let clang = guard(&mut count);

    let index = clang.create_index();
    assert_eq!((index.exclude_pch_flag(), index.display_diagnostics_flag()), (0, 0));
    let index = clang.create_index_with_display_diagnostics();
    assert_eq!((index.exclude_pch_flag(), index.display_diagnostics_flag()), (0, 1));
    let index = clang.create_index_with_exclude_pch();
    assert_eq!((index.exclude_pch_flag(), index.display_diagnostics_flag()), (1, 0));
    let index = clang.create_index_with_exclude_pch_and_display_diagnostics();
    assert_eq!((index.exclude_pch_flag(), index.display_diagnostics_flag()), (1, 1));
}

#[test]
fn kind_predicates_follow_the_native_kinds() {
    let function = node(clang_sys::CXCursor_FunctionDecl, "FunctionDecl", "f", vec![]);
    assert!(function.is_function_decl());
    assert!(!function.is_cxx_method());
    assert!(!function.is_function_template());

    let method = node(clang_sys::CXCursor_CXXMethod, "CXXMethod", "m", vec![]);
    assert!(!method.is_function_decl());
    assert!(method.is_cxx_method());
    assert!(!method.is_function_template());

    let template = node(clang_sys::CXCursor_FunctionTemplate, "FunctionTemplate", "t", vec![]);
    assert!(!template.is_function_decl());
    assert!(!template.is_cxx_method());
    assert!(template.is_function_template());

    let other = node(clang_sys::CXCursor_ParmDecl, "ParmDecl", "x", vec![]);
    assert!(!other.is_function_decl());
    assert!(!other.is_cxx_method());
    assert!(!other.is_function_template());
}

#[test]
fn at_most_one_kind_predicate_holds() {
    for kind in -5..700 {
        let cursor = node(kind, "", "", vec![]);
        let holding = [
            cursor.is_function_decl(),
            cursor.is_cxx_method(),
            cursor.is_function_template(),
        ]
        .iter()
        .filter(|&&yes| yes)
        .count();
        assert!(holding <= 1);
        assert_eq!(holding == 1, kind == 8 || kind == 21 || kind == 30);
    }
}

#[test]
fn main_file_test_is_true_on_a_native_zero() {
    assert!(header_node(FUNCTION_DECL, "FunctionDecl", "printf", vec![]).is_from_main_file());
    assert!(!node(FUNCTION_DECL, "FunctionDecl", "main", vec![]).is_from_main_file());
    let other = Cursor::new(
        FUNCTION_DECL,
        String::new(),
        String::new(),
        7,
        SourceRange::new(location("a", 1, 1, 0), location("a", 1, 1, 0)),
        vec![],
    );
    assert!(!other.is_from_main_file());
}

#[test]
fn cursor_gives_back_what_it_was_read_as() {
    let cursor = Cursor::new(
        FUNCTION_DECL,
        "FunctionDecl".to_string(),
        "main".to_string(),
        1,
        SourceRange::new(location("main.cpp", 3, 1, 40), location("main.cpp", 5, 2, 71)),
        vec![],
    );
    assert_eq!(cursor.kind_spelling(), "FunctionDecl");
    assert_eq!(cursor.spelling(), "main");
    let start = cursor.extent().start().spelling_location();
    assert_eq!(start.file().file_name(), "main.cpp");
    assert_eq!((start.line(), start.column(), start.offset()), (3, 1, 40));
    let end = cursor.extent().end().spelling_location();
    assert_eq!(end.file().file_name(), "main.cpp");
    assert_eq!((end.line(), end.column(), end.offset()), (5, 2, 71));
}

#[test]
fn spelling_location_prints_file_line_column_offset() {
    let spelling = location("/src/main.cpp", 12, 5, 230).spelling_location();
    assert_eq!(
        format!("{:?}", spelling),
        "SpellingLocation { file: \"/src/main.cpp\", line: 12, column: 5, offset: 230 }"
    );
}

#[test]
fn root_cursor_is_the_tree_that_was_read() {
    let mut count = LoadCount::new();
    let clang = guard(&mut count);
    let index = clang.create_index_with_display_diagnostics();
    let tu = index.translation_unit(sample_tree());
    let cursor = tu.create_cursor();
    assert_eq!(cursor.spelling(), "root");
    assert_eq!(cursor.kind_spelling(), "TranslationUnit");
}

#[test]
fn continue_shows_each_direct_child_once_in_order() {
    let seen = record(&sample_tree(), |_| ChildVisitResult::CONTINUE);
    assert_eq!(seen, pairs(&[("a", "root"), ("b", "root"), ("c", "root")]));
}

#[test]
fn recursive_shows_the_children_before_the_next_sibling() {
    let seen = record(&sample_tree(), |_| ChildVisitResult::RECURSIVE);
    assert_eq!(
        seen,
        pairs(&[
            ("a", "root"),
            ("a1", "a"),
            ("a1x", "a1"),
            ("a2", "a"),
            ("b", "root"),
            ("c", "root"),
            ("c1", "c"),
        ])
    );
}

#[test]
fn recursion_goes_only_where_the_visitor_asks() {
    let seen = record(&sample_tree(), |cursor| {
        if cursor.spelling() == "a" {
            ChildVisitResult::RECURSIVE
        } else {
            ChildVisitResult::CONTINUE
        }
    });
    assert_eq!(seen, pairs(&[("a", "root"), ("a1", "a"), ("a2", "a"), ("b", "root"), ("c", "root")]));
}

#[test]
fn break_on_the_first_node_leaves_the_counter_at_one() {
    let seen = record(&sample_tree(), |_| ChildVisitResult::BREAK);
    assert_eq!(seen.len(), 1);
    assert_eq!(seen, pairs(&[("a", "root")]));
}

#[test]
fn break_on_the_first_match_ends_the_whole_walk() {
    struct FirstMatch {
        visited: u32,
        matched: u32,
    }
    impl NodeVisitor for FirstMatch {
        type Gathered = ();

        fn visit(&mut self, cursor: &Cursor, _parent: &Cursor) -> i32 {
            self.visited += 1;
            if cursor.is_function_decl() {
                self.matched += 1;
                ChildVisitResult::BREAK
            } else {
                ChildVisitResult::RECURSIVE
            }
        }
    }
    let mut visitor = FirstMatch { visited: 0, matched: 0 };
    sample_tree().visit_children(&mut visitor);
    assert_eq!(visitor.matched, 1);
    // a, a1, a1x, a2: the match is a2; b, c and c1 are never shown
    assert_eq!(visitor.visited, 4);
}

#[test]
fn break_below_stops_the_siblings_above() {
    let seen = record(&sample_tree(), |cursor| {
        if cursor.spelling() == "a1x" {
            ChildVisitResult::BREAK
        } else {
            ChildVisitResult::RECURSIVE
        }
    });
    assert_eq!(seen, pairs(&[("a", "root"), ("a1", "a"), ("a1x", "a1")]));
}

#[test]
fn walk_of_a_leaf_shows_nothing() {
    let seen = record(&node(FUNCTION_DECL, "FunctionDecl", "f", vec![]), |_| {
        ChildVisitResult::RECURSIVE
    });
    assert!(seen.is_empty());
}

#[test]
fn function_names_are_gathered_in_walk_order() {
    let mut finder = FunctionNames::new();
    sample_tree().visit_children(&mut finder);
    assert_eq!(finder.into_names(), vec!["a", "a2", "b", "c"]);
}

#[test]
fn function_names_pass_over_headers_and_all_below_them() {
    let root = node(
        TRANSLATION_UNIT,
        "TranslationUnit",
        "root",
        vec![
            header_node(
                FUNCTION_DECL,
                "FunctionDecl",
                "printf",
                vec![node(FUNCTION_DECL, "FunctionDecl", "hidden", vec![])],
            ),
            node(
                COMPOUND_STMT,
                "CompoundStmt",
                "",
                vec![node(CXX_METHOD, "CXXMethod", "get", vec![])],
            ),
            node(FUNCTION_DECL, "FunctionDecl", "main", vec![]),
        ],
    );
    let mut finder = FunctionNames::new();
    root.visit_children(&mut finder);
    assert_eq!(finder.into_names(), vec!["get", "main"]);
}

#[test]
fn function_names_of_a_leaf_are_none() {
    let mut finder = FunctionNames::new();
    node(FUNCTION_DECL, "FunctionDecl", "f", vec![]).visit_children(&mut finder);
    assert!(finder.into_names().is_empty());
}

#[test]
fn walk_tells_whether_it_was_cut_short() {
    let mut stop_at_a2 = Recorder {
        answer: |cursor: &Cursor| {
            if cursor.spelling() == "a2" {
                ChildVisitResult::BREAK
            } else {
                ChildVisitResult::RECURSIVE
            }
        },
        seen: Vec::new(),
    };
    assert!(sample_tree().visit_children(&mut stop_at_a2));

    let mut never_stop = Recorder { answer: |_: &Cursor| ChildVisitResult::RECURSIVE, seen: Vec::new() };
    assert!(!sample_tree().visit_children(&mut never_stop));
    assert_eq!(never_stop.seen.len(), 7);

    let mut finder = FunctionNames::new();
    assert!(!sample_tree().visit_children(&mut finder));

    let mut on_a_leaf = Recorder { answer: |_: &Cursor| ChildVisitResult::BREAK, seen: Vec::new() };
    assert!(!node(FUNCTION_DECL, "FunctionDecl", "f", vec![]).visit_children(&mut on_a_leaf));
}

/// Walks each child's children itself, one level at a time, and answers
/// `BREAK` as soon as a walk below was cut short.
struct Searcher {
    wanted: &'static str,
    seen: Vec<String>,
}

impl NodeVisitor for Searcher {
    type Gathered = ();

    fn visit(&mut self, cursor: &Cursor, _parent: &Cursor) -> i32 {
        self.seen.push(cursor.spelling());
        if cursor.spelling() == self.wanted {
            return ChildVisitResult::BREAK;
        }
        let mut below = Searcher { wanted: self.wanted, seen: Vec::new() };
        let stopped = cursor.visit_children(&mut below);
        self.seen.extend(below.seen);
        if stopped {
            ChildVisitResult::BREAK
        } else {
            ChildVisitResult::CONTINUE
        }
    }
}

#[test]
fn visitor_that_walks_below_itself_hands_a_break_upward() {
    let mut searcher = Searcher { wanted: "a1x", seen: Vec::new() };
    assert!(sample_tree().visit_children(&mut searcher));
    assert_eq!(searcher.seen, vec!["a", "a1", "a1x"]);

    let mut searcher = Searcher { wanted: "nowhere", seen: Vec::new() };
    assert!(!sample_tree().visit_children(&mut searcher));
    assert_eq!(searcher.seen, vec!["a", "a1", "a1x", "a2", "b", "c", "c1"]);
}
