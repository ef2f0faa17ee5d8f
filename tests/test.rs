use clap::{Arg, ArgAction, ArgMatches, Command};
use clowncopterize::{
    clowncopterize, is_eligible, Clowncopterize, ConfigError, ConfigToken, Directive, DirectiveArg,
    DirectiveBody, Field, FieldType, Record, RecordFields, TransformError,
};

fn leak(s: &str) -> &'static str {
    Box::leak(s.to_string().into_boxed_str())
}

fn option_directive(args: Vec<DirectiveArg>) -> Directive {
    Directive { path: "arg".to_string(), body: DirectiveBody::List(args) }
}

fn long() -> DirectiveArg {
    DirectiveArg::Word("long".to_string())
}

fn field(ident: &str, ty: FieldType, doc: &str, directives: Vec<Directive>) -> Field {
    Field {
        vis: String::new(),
        ident: ident.to_string(),
        ty,
        docs: vec![doc.to_string()],
        directives,
    }
}

fn flag_field(ident: &str, doc: &str) -> Field {
    field(ident, FieldType::Ident("bool".to_string()), doc, vec![option_directive(vec![long()])])
}

fn name_field() -> Field {
    field(
        "name",
        FieldType::Other("Option<String>".to_string()),
        " Optional name to operate on",
        vec![],
    )
}

/// The record of the usual example: an optional name and two family members.
fn cli(name: &str) -> Record {
    Record {
        name: name.to_string(),
        fields: RecordFields::Named(vec![
            name_field(),
            flag_field("clowntown_this", " Turn debugging information on"),
            flag_field("clowntown_that", " lists test values"),
        ]),
    }
}

fn custom_config(value: &str) -> Vec<ConfigToken> {
    vec![
        ConfigToken::Ident("aggregate_flag_name".to_string()),
        ConfigToken::Punct('='),
        ConfigToken::Str(value.to_string()),
    ]
}

fn conditional_default(flag: &str) -> DirectiveArg {
    DirectiveArg::DefaultValueIf {
        flag: flag.to_string(),
        when: "true".to_string(),
        value: "true".to_string(),
    }
}

/// Builds the option parser that the record's directives describe, as the
/// command-line parser's derive would.
fn command_of(record: &Record) -> Command {
    let mut cmd = Command::new(leak(&record.name));
    if let RecordFields::Named(fields) = &record.fields {
        for f in fields {
            cmd = cmd.arg(arg_of(f));
        }
    }
    cmd
}

fn arg_of(f: &Field) -> Arg {
    let mut arg = Arg::new(leak(&f.ident));
    arg = match &f.ty {
        FieldType::Ident(t) if t == "bool" => arg.action(ArgAction::SetTrue),
        _ => arg.action(ArgAction::Set).required(false),
    };
    for d in &f.directives {
        if d.path != "arg" {
            continue;
        }
        if let DirectiveBody::List(args) = &d.body {
            for a in args {
                arg = match a {
                    DirectiveArg::Word(w) if w == "long" => arg.long(leak(&f.ident.replace('_', "-"))),
                    DirectiveArg::DefaultValueIf { flag, when, value } => {
                        arg.default_value_if(leak(flag), leak(when), leak(value))
                    },
                    _ => arg,
                };
            }
        }
    }
    arg
}

fn parse(record: &Record, argv: Vec<&str>) -> ArgMatches {
    command_of(record).try_get_matches_from(argv).unwrap()
}

fn named(record: &Record) -> &Vec<Field> {
    match &record.fields {
        RecordFields::Named(fields) => fields,
        _ => panic!("expected named fields"),
    }
}

#[test]
fn test_default_to_false() {
    let out = clowncopterize(&vec![], cli("Cli")).unwrap();
    let cli = parse(&out, vec!["prog"]);
    assert_eq!(cli.get_flag("clowntown_this"), false);
    assert_eq!(cli.get_flag("clowntown_that"), false);
    assert_eq!(cli.get_flag("clowncopterize"), false);
}

#[test]
fn test_set_all_to_true() {
    let out = clowncopterize(&vec![], cli("Cli")).unwrap();
    let cli = parse(&out, vec!["prog", "--clowncopterize"]);
    assert_eq!(cli.get_flag("clowntown_this"), true);
    assert_eq!(cli.get_flag("clowntown_that"), true);
    assert_eq!(cli.get_flag("clowncopterize"), true);
}

#[test]
fn test_set_all_to_true_custom_flag() {
    let out = clowncopterize(&custom_config("i-live-in-clowntown"), cli("CliCustomFlag")).unwrap();
    let cli = parse(&out, vec!["prog", "--i-live-in-clowntown"]);
    assert_eq!(cli.get_flag("clowntown_this"), true);
    assert_eq!(cli.get_flag("clowntown_that"), true);
    assert_eq!(cli.get_flag("i_live_in_clowntown"), true);
}

#[test]
fn explicit_member_leaves_other_false() {
    let out = clowncopterize(&vec![], cli("Cli")).unwrap();
    let cli = parse(&out, vec!["prog", "--clowntown-this"]);
    assert_eq!(cli.get_flag("clowntown_this"), true);
    assert_eq!(cli.get_flag("clowntown_that"), false);
    assert_eq!(cli.get_flag("clowncopterize"), false);
}

#[test]
fn end_to_end_output() {
    let out = clowncopterize(&vec![], cli("Cli")).unwrap();
    let rewritten = |ident: &str, doc: &str| {
        field(
            ident,
            FieldType::Ident("bool".to_string()),
            doc,
            vec![option_directive(vec![long(), conditional_default("clowncopterize")])],
        )
    };
    let expected = Record {
        name: "Cli".to_string(),
        fields: RecordFields::Named(vec![
            name_field(),
            rewritten("clowntown_this", " Turn debugging information on"),
            rewritten("clowntown_that", " lists test values"),
            flag_field("clowncopterize", " Turns all the clowntown flags on"),
        ]),
    };
    assert_eq!(out, expected);
}

#[test]
fn default_name_without_configuration() {
    let c = Clowncopterize::parse(&vec![]).unwrap();
    assert_eq!(c.clowncopterizer, "clowncopterize");
    let out = clowncopterize(&vec![], cli("Cli")).unwrap();
    assert_eq!(named(&out).last().unwrap().ident, "clowncopterize");
}

#[test]
fn custom_name_is_normalized() {
    let c = Clowncopterize::parse(&custom_config("i-live-in-clowntown")).unwrap();
    assert_eq!(c.clowncopterizer, "i_live_in_clowntown");
    let out = clowncopterize(&custom_config("i-live-in-clowntown"), cli("Cli")).unwrap();
    let fields = named(&out);
    assert_eq!(fields[3].ident, "i_live_in_clowntown");
    assert_eq!(
        fields[1].directives[0],
        option_directive(vec![long(), conditional_default("i_live_in_clowntown")])
    );
}

#[test]
fn field_count_with_and_without_members() {
    let out = clowncopterize(&vec![], cli("Cli")).unwrap();
    assert_eq!(named(&out).len(), 4);
    let plain = Record {
        name: "Plain".to_string(),
        fields: RecordFields::Named(vec![name_field(), flag_field("verbose", " Be verbose")]),
    };
    let out = clowncopterize(&vec![], plain).unwrap();
    assert_eq!(named(&out).len(), 2);
}

#[test]
fn order_is_kept_and_aggregate_is_last() {
    let record = Record {
        name: "Mixed".to_string(),
        fields: RecordFields::Named(vec![
            flag_field("clowntown_a", " a"),
            name_field(),
            flag_field("verbose", " v"),
            flag_field("clowntown_b", " b"),
        ]),
    };
    let out = clowncopterize(&vec![], record).unwrap();
    let idents: Vec<&str> = named(&out).iter().map(|f| f.ident.as_str()).collect();
    assert_eq!(idents, vec!["clowntown_a", "name", "verbose", "clowntown_b", "clowncopterize"]);
    assert_eq!(named(&out)[2], flag_field("verbose", " v"));
}

#[test]
fn no_member_is_no_change() {
    let record = Record {
        name: "Plain".to_string(),
        fields: RecordFields::Named(vec![name_field(), flag_field("verbose", " Be verbose")]),
    };
    let out = clowncopterize(&vec![], record.clone()).unwrap();
    assert_eq!(out, record);
    let empty = Record { name: "Empty".to_string(), fields: RecordFields::Named(vec![]) };
    assert_eq!(clowncopterize(&vec![], empty.clone()).unwrap(), empty);
}

#[test]
fn non_flag_member_is_excluded() {
    let text = field(
        "clowntown_text",
        FieldType::Other("Option<String>".to_string()),
        " not a flag",
        vec![option_directive(vec![long()])],
    );
    let named_text = field(
        "clowntown_name",
        FieldType::Ident("String".to_string()),
        " not a flag either",
        vec![option_directive(vec![long()])],
    );
    let record = Record {
        name: "Texts".to_string(),
        fields: RecordFields::Named(vec![text.clone(), named_text.clone()]),
    };
    assert!(!is_eligible(&text));
    assert!(!is_eligible(&named_text));
    let out = clowncopterize(&vec![], record.clone()).unwrap();
    assert_eq!(out, record);
}

#[test]
fn prefix_needs_no_separator() {
    assert!(is_eligible(&flag_field("clowntownish", " x")));
    assert!(is_eligible(&flag_field("clowntown", " x")));
    assert!(!is_eligible(&flag_field("Clowntown_x", " x")));
    assert!(!is_eligible(&flag_field("clown", " x")));
    assert!(!is_eligible(&flag_field("my_clowntown", " x")));
}

#[test]
fn member_without_directive_still_counts() {
    let bare = field("clowntown_bare", FieldType::Ident("bool".to_string()), " bare", vec![]);
    let record = Record { name: "Bare".to_string(), fields: RecordFields::Named(vec![bare.clone()]) };
    let out = clowncopterize(&vec![], record).unwrap();
    let fields = named(&out);
    assert_eq!(fields.len(), 2);
    assert_eq!(fields[0], bare);
    assert_eq!(fields[1], flag_field("clowncopterize", " Turns all the clowntown flags on"));
}

#[test]
fn other_directives_are_kept() {
    let doc = Directive { path: "command".to_string(), body: DirectiveBody::Bare };
    let member = field(
        "clowntown_x",
        FieldType::Ident("bool".to_string()),
        " x",
        vec![doc.clone(), option_directive(vec![long(), DirectiveArg::Word("short".to_string())])],
    );
    let c = Clowncopterize::parse(&vec![]).unwrap();
    let g = c.clowncopterize_field(member).unwrap();
    assert_eq!(g.directives[0], doc);
    assert_eq!(
        g.directives[1],
        option_directive(vec![
            long(),
            DirectiveArg::Word("short".to_string()),
            conditional_default("clowncopterize"),
        ])
    );
}

#[test]
fn records_without_named_fields_are_unchanged() {
    let tuple = Record {
        name: "Tuple".to_string(),
        fields: RecordFields::Unnamed(vec![FieldType::Ident("bool".to_string())]),
    };
    assert_eq!(clowncopterize(&vec![], tuple.clone()).unwrap(), tuple);
    let unit = Record { name: "Unit".to_string(), fields: RecordFields::Unit };
    assert_eq!(clowncopterize(&vec![], unit.clone()).unwrap(), unit);
}

#[test]
fn malformed_directive_is_refused() {
    let bare_arg = field(
        "clowntown_bad",
        FieldType::Ident("bool".to_string()),
        " bad",
        vec![Directive { path: "arg".to_string(), body: DirectiveBody::Bare }],
    );
    let assigned_arg = field(
        "clowntown_worse",
        FieldType::Ident("bool".to_string()),
        " worse",
        vec![Directive { path: "arg".to_string(), body: DirectiveBody::Value("1".to_string()) }],
    );
    let record = Record {
        name: "Bad".to_string(),
        fields: RecordFields::Named(vec![name_field(), bare_arg, assigned_arg]),
    };
    assert_eq!(clowncopterize(&vec![], record), Err(TransformError::MalformedDirective(1)));
    // an ineligible field's directives are not looked at
    let ignored = field(
        "verbose",
        FieldType::Ident("bool".to_string()),
        " v",
        vec![Directive { path: "arg".to_string(), body: DirectiveBody::Bare }],
    );
    let record = Record { name: "Fine".to_string(), fields: RecordFields::Named(vec![ignored.clone()]) };
    assert_eq!(clowncopterize(&vec![], record.clone()).unwrap(), record);
}

#[test]
fn taken_name_is_refused() {
    let record = Record {
        name: "Taken".to_string(),
        fields: RecordFields::Named(vec![
            flag_field("clowntown_x", " x"),
            flag_field("clowncopterize", " already here"),
        ]),
    };
    assert_eq!(clowncopterize(&vec![], record), Err(TransformError::NameTaken));
}

#[test]
fn configuration_errors() {
    let err = |tokens: Vec<ConfigToken>| clowncopterize(&tokens, cli("Cli")).unwrap_err();
    assert_eq!(err(vec![ConfigToken::Punct('=')]), TransformError::Config(ConfigError::ExpectedKey));
    assert_eq!(
        err(vec![
            ConfigToken::Ident("clowncopterizer".to_string()),
            ConfigToken::Punct('='),
            ConfigToken::Str("x".to_string()),
        ]),
        TransformError::Config(ConfigError::UnexpectedKey)
    );
    assert_eq!(
        err(vec![ConfigToken::Ident("aggregate_flag_name".to_string())]),
        TransformError::Config(ConfigError::ExpectedEquals)
    );
    assert_eq!(
        err(vec![
            ConfigToken::Ident("aggregate_flag_name".to_string()),
            ConfigToken::Punct(':'),
        ]),
        TransformError::Config(ConfigError::ExpectedEquals)
    );
    assert_eq!(
        err(vec![ConfigToken::Ident("aggregate_flag_name".to_string()), ConfigToken::Punct('=')]),
        TransformError::Config(ConfigError::ExpectedString)
    );
    assert_eq!(
        err(vec![
            ConfigToken::Ident("aggregate_flag_name".to_string()),
            ConfigToken::Punct('='),
            ConfigToken::Other("42".to_string()),
        ]),
        TransformError::Config(ConfigError::ExpectedString)
    );
    let mut trailing = custom_config("x");
    trailing.push(ConfigToken::Punct(','));
    assert_eq!(err(trailing), TransformError::Config(ConfigError::UnexpectedToken));
    assert_eq!(err(custom_config("1-two")), TransformError::Config(ConfigError::InvalidName));
    assert_eq!(err(custom_config("struct")), TransformError::Config(ConfigError::InvalidName));
    assert_eq!(err(custom_config("")), TransformError::Config(ConfigError::InvalidName));
}

#[test]
fn configuration_error_comes_before_record_checks() {
    let record = Record { name: "Unit".to_string(), fields: RecordFields::Unit };
    assert_eq!(
        clowncopterize(&vec![ConfigToken::Punct('=')], record),
        Err(TransformError::Config(ConfigError::ExpectedKey))
    );
}
