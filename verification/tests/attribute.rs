use daemonizable::attribute::{
    crate_name_literal, crate_name_path, expand, generate_main, parse_crate_path, AttributeError,
    ImplBlock, NameValue, PathParts, PathSegment, StringLiteral,
};

/// The tokens of `source` as they are printed.
fn tokens(source: &str) -> String {
    source.parse::<proc_macro2::TokenStream>().unwrap().to_string()
}

#[test]
fn parse_crate_path_accepts_default_and_rename_and_rejects_junk() {
    let default = parse_crate_path(&tokens("")).unwrap();
    assert_eq!(tokens(&default), tokens("::daemonizable"));

    let renamed = parse_crate_path(&tokens("crate = \"dz\"")).unwrap();
    assert_eq!(tokens(&renamed), tokens("dz"));

    let nested = parse_crate_path(&tokens("crate = \"facade::daemonizable\"")).unwrap();
    assert_eq!(tokens(&nested), tokens("facade::daemonizable"));

    assert!(parse_crate_path(&tokens("krate = \"dz\"")).is_err());
    assert!(parse_crate_path(&tokens("crate = 42")).is_err());
    assert!(parse_crate_path(&tokens("some junk")).is_err());
    assert!(parse_crate_path(&tokens("crate = \"not a path\"")).is_err());
}

#[test]
fn each_refused_argument_has_its_error() {
    assert_eq!(parse_crate_path("some junk"), Err(AttributeError::NotNameValue));
    assert_eq!(parse_crate_path("krate = \"dz\""), Err(AttributeError::WrongName));
    assert_eq!(parse_crate_path("crate :: x = \"dz\""), Err(AttributeError::WrongName));
    assert_eq!(parse_crate_path(":: krate = \"dz\""), Err(AttributeError::WrongName));
    assert_eq!(parse_crate_path("crate = 42"), Err(AttributeError::NotAString));
    assert_eq!(parse_crate_path("crate = \"not a path\""), Err(AttributeError::NotAPath));
    assert_eq!(parse_crate_path("crate = \"dz\"suffix"), Err(AttributeError::NotAPath));
    assert_eq!(
        AttributeError::NotAString.message(),
        "#[daemonizable::main] supports only the `crate = \"...\"` argument, e.g. \
         #[dz::main(crate = \"dz\")] for a dependency renamed to `dz`"
    );
    assert_eq!(
        AttributeError::NotAPath.message(),
        "crate = \"...\" must contain a path to the daemonizable crate, e.g. crate = \"dz\" or \
         crate = \"my_facade::daemonizable\""
    );
}

#[test]
fn macro_expands_on_a_valid_impl() {
    let item = "impl Daemonizable for App { type Request = (); type Response = (); \
                fn build_id() -> String { \"pass-minimal 1.0.0\".to_string() } }";
    let expansion = expand("", item).unwrap();
    assert_eq!(expansion.item, item);
    assert_eq!(
        tokens(&expansion.main),
        tokens(
            "fn main() -> ::std::process::ExitCode { ::daemonizable::run:: <App>() }"
        )
    );
    // The trait may be named by a longer path, and the crate by another name.
    let expansion =
        expand("crate = \"dz\"", "impl dz::Daemonizable for my::App<u8> {}").unwrap();
    assert_eq!(
        tokens(&expansion.main),
        tokens("fn main() -> ::std::process::ExitCode { dz::run:: <my::App<u8> >() }")
    );
}

#[test]
fn macro_rejects_invalid_attachments() {
    let generic = "impl<T: 'static> Daemonizable for App<T> { type Request = (); }";
    assert_eq!(expand("", generic), Err(AttributeError::Generic));
    assert_eq!(
        AttributeError::Generic.message(),
        "#[daemonizable::main] does not support generic impls: `daemonizable::run` needs one \
         concrete application type to dispatch on"
    );
    assert_eq!(expand("", "impl SomeOtherTrait for App {}"), Err(AttributeError::WrongTrait));
    assert_eq!(expand("", "impl App {}"), Err(AttributeError::WrongTrait));
    assert_eq!(
        AttributeError::WrongTrait.message(),
        "#[daemonizable::main] must be attached to an `impl Daemonizable for YourApp` block \
         (the trait path must end in `Daemonizable`)"
    );
    assert_eq!(expand("", "struct NotAnImpl;"), Err(AttributeError::NotAnImpl));
    assert_eq!(
        AttributeError::NotAnImpl.message(),
        "#[daemonizable::main] must be attached to an `impl Daemonizable for YourApp` block"
    );
    // The arguments are checked before the item.
    assert_eq!(expand("crate = 42", "struct NotAnImpl;"), Err(AttributeError::NotAString));
}

#[test]
fn decisions_on_parsed_values() {
    let named = |leading_colon: bool, segments: &[&str], literal: Option<(&str, &str)>| {
        Some(NameValue {
            leading_colon,
            segments: segments.iter().map(|name| name.to_string()).collect(),
            literal: literal.map(|(value, suffix)| StringLiteral {
                value: value.to_string(),
                suffix: suffix.to_string(),
            }),
        })
    };
    assert_eq!(crate_name_literal(None), Err(AttributeError::NotNameValue));
    let parsed = named(false, &["crate"], Some(("dz", "")));
    assert_eq!(crate_name_literal(parsed), Ok("dz".to_string()));
    let parsed = named(true, &["crate"], Some(("dz", "")));
    assert_eq!(crate_name_literal(parsed), Err(AttributeError::WrongName));
    let parsed = named(false, &["crate", "x"], Some(("dz", "")));
    assert_eq!(crate_name_literal(parsed), Err(AttributeError::WrongName));
    let parsed = named(false, &["crate"], Some(("dz", "u8")));
    assert_eq!(crate_name_literal(parsed), Err(AttributeError::NotAPath));
    let parsed = named(false, &["crate"], None);
    assert_eq!(crate_name_literal(parsed), Err(AttributeError::NotAString));

    let segment = |name: &str, arguments: &str| PathSegment {
        name: name.to_string(),
        arguments: arguments.to_string(),
    };
    assert_eq!(crate_name_path(None), Err(AttributeError::NotAPath));
    let path = PathParts { leading_colon: false, segments: vec![segment("dz", "")] };
    assert_eq!(crate_name_path(Some(path)), Ok("dz".to_string()));
    let path = PathParts {
        leading_colon: true,
        segments: vec![segment("a", ":: < u8 >"), segment("b", "")],
    };
    assert_eq!(crate_name_path(Some(path)), Ok(":: a :: < u8 > :: b".to_string()));

    let block = |trait_path: &[&str], generic_params: usize| {
        Some(ImplBlock {
            trait_path: Some(trait_path.iter().map(|name| name.to_string()).collect()),
            generic_params,
            self_ty: "App".to_string(),
        })
    };
    let main = "fn main () -> :: std :: process :: ExitCode { dz :: run :: < App > () }";
    assert_eq!(generate_main("dz", block(&["Daemonizable"], 0)), Ok(main.to_string()));
    assert_eq!(generate_main("dz", block(&["dz", "Daemonizable"], 0)), Ok(main.to_string()));
    // The trait's path has to end in the name, not to hold it.
    assert_eq!(
        generate_main("dz", block(&["Daemonizable", "Other"], 0)),
        Err(AttributeError::WrongTrait)
    );
    assert_eq!(generate_main("dz", block(&["Daemonizable"], 1)), Err(AttributeError::Generic));
}
