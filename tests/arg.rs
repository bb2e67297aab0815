use lib_core::arg::{join_all, Arg};

#[test]
fn test_arg_builder() {
    let arg1 = Arg::new("arg").with_double_dash().build();

    assert_eq!(arg1, vec!["--arg".to_string()]);

    let arg1 = Arg::new("arg").build();

    assert_eq!(arg1, vec!["-arg".to_string()]);

    let arg1 = Arg::new("arg").value("sss").build();

    assert_eq!(arg1, vec!["-arg".to_string(), "sss".to_string()]);

    let arg1 = Arg::new("vf")
        .value(
            Arg::new(
                Arg::new("scale")
                    .without_dash()
                    .value("1920x1080")
                    .with_value_spacer(":")
                    .build()
                    .join(""),
            )
            .without_dash()
            .value(
                Arg::new("flags")
                    .without_dash()
                    .value("lanczos")
                    .with_value_spacer("=")
                    .build()
                    .join(""),
            )
            .with_value_spacer(":")
            .build()
            .join(""),
        )
        .value_double_quote()
        .with_value_spacer(" ")
        .build();

    println!("{:?}", arg1);
}

#[test]
fn spaced_argument_forms() {
    assert_eq!(Arg::new("x").value("1").with_value_spacer("=").build(), vec!["-x=1"]);
    assert_eq!(
        Arg::new("x").with_double_dash().value("1").with_value_spacer("=").build(),
        vec!["--x=1"]
    );
    assert_eq!(
        Arg::new("x").with_double_dash().value("1").value_double_quote().with_value_spacer("=").build(),
        vec!["\"--x=1\""]
    );
    assert_eq!(
        Arg::new("x").value("1").value_double_quote().with_value_spacer(" ").build(),
        vec!["\"-x 1\""]
    );
    assert_eq!(
        Arg::new("x").without_dash().value("1").value_double_quote().with_value_spacer(":").build(),
        vec!["\"x:1\""]
    );
}

#[test]
fn flag_forms() {
    assert_eq!(Arg::new("f").without_dash().build(), vec!["f"]);
    assert_eq!(Arg::new("f").without_dash().value("v").build(), vec!["f", "v"]);
    assert_eq!(Arg::new("f").with_double_dash().value("v").build(), vec!["--f", "v"]);
    assert_eq!(
        Arg::new("f").with_double_dash().without_dash().value("v").build(),
        vec!["f", "v"]
    );
}

#[test]
fn value_with_vec_joins_parts() {
    let parts = vec!["a".to_string(), "bc".to_string(), "".to_string(), "d".to_string()];
    assert_eq!(Arg::new("k").value_with_vec(parts.clone()).build(), vec!["-k", "abcd"]);
    assert_eq!(join_all(&parts), "abcd");
    assert_eq!(join_all(&Vec::new()), "");
}
