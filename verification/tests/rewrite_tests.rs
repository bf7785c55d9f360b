use tracewrap::expand;
use tracewrap::trace;
use tracewrap::trace_async;
use tracewrap::trace_async_fine;
use tracewrap::EntryPoint;
use tracewrap::ExpandError;
use tracewrap::FunctionDeclaration;
use tracewrap::TagExpression;

fn plain_decl(asyncness: bool) -> FunctionDeclaration {
    FunctionDeclaration {
        attrs: vec![],
        vis: String::new(),
        constness: String::new(),
        unsafety: String::new(),
        abi: String::new(),
        asyncness,
        async_line: 0,
        async_column: 0,
        ident: "f".to_string(),
        generics: String::new(),
        params: String::new(),
        return_type: String::new(),
        where_clause: String::new(),
        body: "{ 1 }".to_string(),
    }
}

fn tag(text: &str) -> TagExpression {
    TagExpression { text: text.to_string() }
}

#[test]
fn sync_add_example() {
    let out = trace("fn add(a: i64, b: i64) -> i64 { a + b }", "7").unwrap();
    assert_eq!(
        out,
        "    fn add(a : i64 , b : i64) -> i64  \
         { let __tracer_span = minitrace::new_span((7) as u32); \
         let __tracing_attr_guard = __tracer_span.enter(); { a + b } }"
    );
    assert_eq!(out.matches("new_span").count(), 1);
    assert!(out.contains("{ a + b }"));
    assert!(!out.contains("<>"));
}

#[test]
fn sync_rejects_async_function() {
    let err = trace("async fn fetch() { go() }", "1").unwrap_err();
    match err {
        ExpandError::Shape(s) => assert_eq!(
            s.message,
            "Unexpected async\nIf want to trace async function, consider `minitrace::trace_async`"
        ),
        ExpandError::Parse(_) => panic!("expected a shape diagnostic"),
    }
}

#[test]
fn async_fetch_example() {
    let out = trace_async("async fn fetch() -> Response { go() }", "3").unwrap();
    assert_eq!(
        out,
        "   async  fn fetch() -> Response  \
         { let __tracer_span = minitrace::new_span((3) as u32); \
         async move { { go () } }.instrument(__tracer_span).await }"
    );
    assert_eq!(out.matches("new_span").count(), 1);
}

#[test]
fn boxed_future_on_plain_function() {
    let out = trace_async("fn fetch() -> BoxFuture { make() }", "9").unwrap();
    assert_eq!(
        out,
        "    fn fetch() -> BoxFuture  \
         { let __tracer_span = minitrace::new_span((9) as u32); \
         std::boxed::Box::pin({ make () }.instrument(__tracer_span)) }"
    );
}

#[test]
fn fine_entry_on_async_function() {
    let out = trace_async_fine("async fn fetch() { go() }", "2").unwrap();
    assert!(out.contains(".instrument_fine(__tracer_span).await"));
    assert!(!out.contains("Box::pin"));
}

#[test]
fn fine_entry_on_plain_function_uses_coarse_instrumentation() {
    let out = trace_async_fine("fn fetch() -> BoxFuture { make() }", "2").unwrap();
    assert!(out.contains("std::boxed::Box::pin({ make () }.instrument(__tracer_span))"));
    assert!(!out.contains("instrument_fine"));
}

#[test]
fn expand_full_signature_verbatim() {
    let d = FunctionDeclaration {
        attrs: vec!["#[inline]".to_string()],
        vis: "pub".to_string(),
        constness: String::new(),
        unsafety: String::new(),
        abi: String::new(),
        asyncness: false,
        async_line: 0,
        async_column: 0,
        ident: "id".to_string(),
        generics: "T : Clone".to_string(),
        params: "x : T".to_string(),
        return_type: "-> T".to_string(),
        where_clause: "where T : Send".to_string(),
        body: "{ x }".to_string(),
    };
    let out = expand(EntryPoint::Sync, &d, &tag("TAG_ID")).unwrap();
    assert_eq!(
        out,
        "#[inline] pub    fn id<T : Clone>(x : T) -> T where T : Send \
         { let __tracer_span = minitrace::new_span((TAG_ID) as u32); \
         let __tracing_attr_guard = __tracer_span.enter(); { x } }"
    );
}

#[test]
fn expand_selects_guard_for_sync() {
    let out = expand(EntryPoint::Sync, &plain_decl(false), &tag("1")).unwrap();
    assert!(out.contains("let __tracing_attr_guard = __tracer_span.enter();"));
}

#[test]
fn expand_rejects_async_under_sync() {
    let err = expand(EntryPoint::Sync, &plain_decl(true), &tag("1")).unwrap_err();
    assert!(err.message.contains("Unexpected async"));
}

#[test]
fn expand_reports_shape_error_at_stored_position() {
    let mut d = plain_decl(true);
    d.async_line = 3;
    d.async_column = 7;
    let err = expand(EntryPoint::Sync, &d, &tag("1")).unwrap_err();
    assert_eq!(err.line, 3);
    assert_eq!(err.column, 7);
    assert!(err.message.contains("`minitrace::trace_async`"));
}

#[test]
fn shape_error_is_located_at_async_keyword() {
    let err = trace(" async fn f() { 1 }", "1").unwrap_err();
    match err {
        ExpandError::Shape(s) => {
            assert_eq!(s.line, 1);
            assert_eq!(s.column, 1);
        },
        ExpandError::Parse(_) => panic!("expected a shape diagnostic"),
    }
}

#[test]
fn parse_error_is_located() {
    let err = trace("fn f() -> { 1 }", "1").unwrap_err();
    match err {
        ExpandError::Parse(p) => {
            assert_eq!(p.line, 1);
            assert!(!p.message.is_empty());
        },
        ExpandError::Shape(_) => panic!("expected a parse diagnostic"),
    }
}

#[test]
fn equal_inputs_give_equal_outputs() {
    let first = trace("fn f() { 0 }", "5").unwrap();
    let second = trace("fn f() { 0 }", "5").unwrap();
    assert_eq!(first, second);
    let first_async = trace_async("async fn f() { 0 }", "x + 1").unwrap();
    let second_async = trace_async("async fn f() { 0 }", "x + 1").unwrap();
    assert_eq!(first_async, second_async);
}

#[test]
fn expand_selects_native_await_for_async() {
    let out = expand(EntryPoint::Async, &plain_decl(true), &tag("1")).unwrap();
    assert!(out.contains("async move { { 1 } }.instrument(__tracer_span).await"));
    assert!(out.starts_with("   async  fn f()"));
}

#[test]
fn expand_selects_boxed_future_for_plain_under_async() {
    let out = expand(EntryPoint::Async, &plain_decl(false), &tag("1")).unwrap();
    assert!(out.contains("std::boxed::Box::pin({ 1 }.instrument(__tracer_span))"));
}

#[test]
fn expand_selects_fine_instrumentation() {
    let out = expand(EntryPoint::AsyncFine, &plain_decl(true), &tag("1")).unwrap();
    assert!(out.contains("async move { { 1 } }.instrument_fine(__tracer_span).await"));
    let boxed = expand(EntryPoint::AsyncFine, &plain_decl(false), &tag("1")).unwrap();
    assert!(boxed.contains("std::boxed::Box::pin({ 1 }.instrument(__tracer_span))"));
}

#[test]
fn signature_identical_across_variants() {
    let sync_out = expand(EntryPoint::Sync, &plain_decl(false), &tag("1")).unwrap();
    let boxed_out = expand(EntryPoint::Async, &plain_decl(false), &tag("2")).unwrap();
    let fine_out = expand(EntryPoint::AsyncFine, &plain_decl(false), &tag("3")).unwrap();
    let sig = "    fn f()   ";
    assert!(sync_out.starts_with(sig));
    assert!(boxed_out.starts_with(sig));
    assert!(fine_out.starts_with(sig));
}

#[test]
fn malformed_item_is_a_parse_error() {
    let err = trace("fn", "7").unwrap_err();
    match err {
        ExpandError::Parse(p) => assert!(!p.message.is_empty()),
        ExpandError::Shape(_) => panic!("expected a parse diagnostic"),
    }
}

#[test]
fn malformed_tag_is_a_parse_error() {
    let err = trace_async("async fn f() { 1 }", "").unwrap_err();
    match err {
        ExpandError::Parse(p) => assert!(!p.message.is_empty()),
        ExpandError::Shape(_) => panic!("expected a parse diagnostic"),
    }
}

#[test]
fn tag_expression_embedded_verbatim() {
    let out = trace("fn f() { 0 }", "x + 1").unwrap();
    assert!(out.contains("minitrace::new_span((x + 1) as u32)"));
}

#[test]
fn attributes_are_preserved() {
    let out = trace("#[inline]\nfn f() { 0 }", "4").unwrap();
    assert!(out.contains("inline"));
    assert!(out.starts_with("# [inline] "));
}

#[test]
fn visibility_and_where_clause_survive_through_parsing() {
    let out = trace(
        "pub fn pick<T>(x: T, y: T) -> T where T: Clone { x }",
        "11",
    )
    .unwrap();
    assert!(out.starts_with("pub"));
    assert!(out.contains("pick<T>("));
    assert!(out.contains("where T : Clone"));
    assert!(out.contains("-> T"));
    assert!(out.contains("new_span((11) as u32)"));
    assert!(out.contains("{ x }"));
}
