use tests_bin::config::{extract_unit_tests_parameters, MacroEnvironment, MacroToken};
use tests_bin::errors::TestsBinErrors;

/// A literal token as the host compiler renders it: quotes included.
fn lit(text: &str) -> MacroToken {
    MacroToken::Literal(format!("\"{}\"", text))
}

fn comma() -> MacroToken {
    MacroToken::Punct(',')
}

fn ident(text: &str) -> MacroToken {
    MacroToken::Ident(String::from(text))
}

fn project_env() -> MacroEnvironment {
    MacroEnvironment { manifest_dir: Some(String::from("/prj")), base_folder: None }
}

/// The declaration-token form the standalone entry point derives from the
/// path parameter `ponyo/ham.rs`: the unquoted path re-read as tokens.
fn ponyo_ham_item() -> Vec<MacroToken> {
    vec![
        ident("ponyo"),
        MacroToken::Punct('/'),
        ident("ham"),
        MacroToken::Punct('.'),
        ident("rs"),
    ]
}

/// tests_bin integration tests.
///
/// # Verification(s)
/// V1 | TestsBinErrors::IncorrectParameters > No literals
/// V2 | TestsBinErrors::IncorrectParameters > No comma separator
/// V3 | TestsBinErrors::IncorrectParameters > Too many parameters
/// V4 | TestsBinErrors::IncorrectParameters > Parameters mixed with idents.
/// V8 | standalone form works without module name
/// V10 | standalone form works with module name
/// V12 | declaration-attached form works without module name
/// V14 | declaration-attached form works with module name
#[test]
fn integration_tests() {
    let env = project_env();
    let no_item: Vec<MacroToken> = Vec::new();

    // V1 | TestsBinErrors::IncorrectParameters > No literals
    let r = extract_unit_tests_parameters(&Vec::new(), &no_item, &env);
    assert!(r.unwrap_err().to_string().contains("Incorrect parameters!"));

    // V2 | TestsBinErrors::IncorrectParameters > No comma separator
    let r = extract_unit_tests_parameters(&vec![lit("a.rs"), lit("name")], &no_item, &env);
    assert!(r.unwrap_err().to_string().contains("Incorrect parameters!"));

    // V3 | TestsBinErrors::IncorrectParameters > Too many parameters
    let r = extract_unit_tests_parameters(
        &vec![lit("a.rs"), comma(), lit("name"), comma(), lit("extra")],
        &no_item,
        &env,
    );
    assert!(r.unwrap_err().to_string().contains("Incorrect parameters!"));

    // V4 | TestsBinErrors::IncorrectParameters > Parameters mixed with idents.
    let r = extract_unit_tests_parameters(
        &vec![lit("a.rs"), ident("foo"), lit("name")],
        &no_item,
        &env,
    );
    assert!(r.unwrap_err().to_string().contains("Incorrect parameters!"));

    // V8 | standalone form works without module name
    let item = ponyo_ham_item();
    let p = extract_unit_tests_parameters(&vec![lit("ponyo/ham.rs")], &item, &env).unwrap();
    assert_eq!(p.full_path.as_str(), "/prj/tests/unit/ponyo/ham.rs");
    assert_eq!(p.module_name.as_str(), "ponyo_ham_rs");

    // V10 | standalone form works with module name
    let item = vec![ident("super_test"), MacroToken::Punct('.'), ident("rs")];
    let p = extract_unit_tests_parameters(
        &vec![lit("super_test.rs"), comma(), lit("module1")],
        &item,
        &env,
    )
    .unwrap();
    assert_eq!(p.full_path.as_str(), "/prj/tests/unit/super_test.rs");
    assert_eq!(p.module_name.as_str(), "module1");

    // V12 | declaration-attached form works without module name
    let item = vec![
        ident("pub"),
        ident("fn"),
        ident("totoro"),
        MacroToken::Punct('('),
        MacroToken::Punct(')'),
        MacroToken::Group,
    ];
    let p = extract_unit_tests_parameters(&vec![lit("ponyo/ham.rs")], &item, &env).unwrap();
    assert_eq!(p.full_path.as_str(), "/prj/tests/unit/ponyo/ham.rs");
    assert_eq!(p.module_name.as_str(), "pub_fn_totoro");

    // V14 | declaration-attached form works with module name
    let p = extract_unit_tests_parameters(
        &vec![lit("sf1/sf2/foo.rs"), comma(), lit("neighbor")],
        &item,
        &env,
    )
    .unwrap();
    assert_eq!(p.full_path.as_str(), "/prj/tests/unit/sf1/sf2/foo.rs");
    assert_eq!(p.module_name.as_str(), "neighbor");
}

/// A single path literal resolves against the manifest root and the default
/// base folder, and the module name comes from the declaration tokens.
#[test]
fn single_literal_resolves_path() {
    let item = vec![ident("fn"), ident("run")];
    let p = extract_unit_tests_parameters(&vec![lit("p.rs")], &item, &project_env()).unwrap();
    assert_eq!(p.full_path.as_str(), "/prj/tests/unit/p.rs");
    assert_eq!(p.module_name.as_str(), "fn_run");
}

/// A trailing separator after the path literal is accepted, and the module
/// name still comes from the declaration tokens.
#[test]
fn trailing_separator_accepted() {
    let item = vec![ident("fn"), ident("run")];
    let p = extract_unit_tests_parameters(&vec![lit("p.rs"), comma()], &item, &project_env())
        .unwrap();
    assert_eq!(p.full_path.as_str(), "/prj/tests/unit/p.rs");
    assert_eq!(p.module_name.as_str(), "fn_run");
}

/// Two literals joined by a separator give the path and the explicit name.
#[test]
fn path_and_explicit_name() {
    let p = extract_unit_tests_parameters(
        &vec![lit("p.rs"), comma(), lit("m")],
        &Vec::new(),
        &project_env(),
    )
    .unwrap();
    assert_eq!(p.full_path.as_str(), "/prj/tests/unit/p.rs");
    assert_eq!(p.module_name.as_str(), "m");
}

/// A separator may not come first.
#[test]
fn leading_separator_rejected() {
    let r = extract_unit_tests_parameters(
        &vec![comma(), lit("p.rs")],
        &Vec::new(),
        &project_env(),
    );
    assert_eq!(r.unwrap_err(), TestsBinErrors::IncorrectParameters);
}

/// A separator may not be repeated.
#[test]
fn repeated_separator_rejected() {
    let r = extract_unit_tests_parameters(
        &vec![lit("p.rs"), comma(), comma(), lit("m")],
        &Vec::new(),
        &project_env(),
    );
    assert_eq!(r.unwrap_err(), TestsBinErrors::IncorrectParameters);
}

/// Punctuation other than the separator is rejected.
#[test]
fn other_punctuation_rejected() {
    let r = extract_unit_tests_parameters(
        &vec![lit("p.rs"), MacroToken::Punct(';'), lit("m")],
        &Vec::new(),
        &project_env(),
    );
    assert_eq!(r.unwrap_err(), TestsBinErrors::IncorrectParameters);
}

/// A group token among the parameters is rejected.
#[test]
fn group_token_rejected() {
    let r = extract_unit_tests_parameters(
        &vec![lit("p.rs"), MacroToken::Group],
        &Vec::new(),
        &project_env(),
    );
    assert_eq!(r.unwrap_err(), TestsBinErrors::IncorrectParameters);
}

/// A separator alone holds no literal, so no path is ever resolved.
#[test]
fn separator_alone_rejected() {
    let r = extract_unit_tests_parameters(&vec![comma()], &Vec::new(), &project_env());
    assert_eq!(r.unwrap_err(), TestsBinErrors::IncorrectParameters);
}

/// A path literal met while the manifest root is absent is the distinct
/// environment failure, not an incorrect-parameters failure.
#[test]
fn missing_manifest_root() {
    let env = MacroEnvironment { manifest_dir: None, base_folder: None };
    let r = extract_unit_tests_parameters(&vec![lit("p.rs")], &Vec::new(), &env);
    assert_eq!(r.unwrap_err(), TestsBinErrors::MissingEnvironment);
    assert_eq!(
        TestsBinErrors::MissingEnvironment.to_string().as_str(),
        "Env variable `CARGO_MANIFEST_DIR` not set!"
    );
}

/// The configured base-folder override replaces the default in the resolved
/// path.
#[test]
fn base_folder_override_in_path() {
    let env = MacroEnvironment {
        manifest_dir: Some(String::from("/prj")),
        base_folder: Some(String::from("tests/custom")),
    };
    let p = extract_unit_tests_parameters(&vec![lit("p.rs")], &vec![ident("m")], &env).unwrap();
    assert_eq!(p.full_path.as_str(), "/prj/tests/custom/p.rs");
}

/// Exactly one matching pair of quotes is stripped from a literal.
#[test]
fn one_quote_pair_stripped() {
    let attr = vec![
        lit("p.rs"),
        comma(),
        MacroToken::Literal(String::from("\"\"m\"\"")),
    ];
    let p = extract_unit_tests_parameters(&attr, &Vec::new(), &project_env()).unwrap();
    assert_eq!(p.module_name.as_str(), "\"m\"");
}

/// A literal whose text is not wrapped in quotes is used as it is.
#[test]
fn unquoted_literal_text_kept() {
    let attr = vec![MacroToken::Literal(String::from("raw.rs"))];
    let p = extract_unit_tests_parameters(&attr, &Vec::new(), &project_env()).unwrap();
    assert_eq!(p.full_path.as_str(), "/prj/tests/unit/raw.rs");
}

/// Re-running extraction on identical tokens and environment yields an
/// identical result.
#[test]
fn extraction_is_idempotent() {
    let attr = vec![lit("p.rs"), comma(), lit("m")];
    let item = vec![ident("fn"), ident("run")];
    let env = project_env();
    let first = extract_unit_tests_parameters(&attr, &item, &env);
    let second = extract_unit_tests_parameters(&attr, &item, &env);
    assert_eq!(first, second);

    let bad = vec![lit("p.rs"), lit("m")];
    let first = extract_unit_tests_parameters(&bad, &item, &env);
    let second = extract_unit_tests_parameters(&bad, &item, &env);
    assert_eq!(first, second);
}
