use script_runner::skip::{Skip, Span};

#[test]
fn test_merge_both_unevaluated() {
    let skip1 = Skip(vec![("linux".to_string(), Span::new_blank())], None);
    let skip2 = Skip(vec![("osx".to_string(), Span::new_blank())], None);

    let merged = skip1.merge(skip2);

    // Should have both conditions
    assert_eq!(merged.0.len(), 2);
    assert_eq!(merged.0[0].0, "linux");
    assert_eq!(merged.0[1].0, "osx");
    // Should not be evaluated
    assert_eq!(merged.1, None);
}

#[test]
fn test_merge_both_evaluated_false() {
    let skip1 = Skip(vec![("linux".to_string(), Span::new_blank())], Some(false));
    let skip2 = Skip(vec![("osx".to_string(), Span::new_blank())], Some(false));

    let merged = skip1.merge(skip2);

    // Should have both conditions
    assert_eq!(merged.0.len(), 2);
    // Should be evaluated to false (both were false)
    assert_eq!(merged.1, Some(false));
}

#[test]
fn test_merge_one_true_one_false() {
    let skip1 = Skip(vec![("linux".to_string(), Span::new_blank())], Some(true));
    let skip2 = Skip(vec![("osx".to_string(), Span::new_blank())], Some(false));

    let merged = skip1.merge(skip2);

    // Should have both conditions
    assert_eq!(merged.0.len(), 2);
    // Should be evaluated to true (OR logic)
    assert_eq!(merged.1, Some(true));
}

#[test]
fn test_merge_both_true() {
    let skip1 = Skip(vec![("linux".to_string(), Span::new_blank())], Some(true));
    let skip2 = Skip(vec![("osx".to_string(), Span::new_blank())], Some(true));

    let merged = skip1.merge(skip2);

    // Should have both conditions
    assert_eq!(merged.0.len(), 2);
    // Should be evaluated to true
    assert_eq!(merged.1, Some(true));
}

#[test]
fn test_merge_one_evaluated_one_not() {
    let skip1 = Skip(vec![("linux".to_string(), Span::new_blank())], Some(false));
    let skip2 = Skip(vec![("osx".to_string(), Span::new_blank())], None);

    let merged = skip1.merge(skip2);

    // Should have both conditions
    assert_eq!(merged.0.len(), 2);
    // Should not be evaluated (one is None)
    assert_eq!(merged.1, None);
}

#[test]
fn test_merge_true_with_unevaluated() {
    let skip1 = Skip(vec![("linux".to_string(), Span::new_blank())], Some(true));
    let skip2 = Skip(vec![("osx".to_string(), Span::new_blank())], None);

    let merged = skip1.merge(skip2);

    // Should have both conditions
    assert_eq!(merged.0.len(), 2);
    // Should be evaluated to true (one is true)
    assert_eq!(merged.1, Some(true));
}

#[test]
fn is_empty_and_eval_defaults() {
    let empty = Skip(vec![], None);
    assert!(empty.is_empty());
    // An unevaluated skip counts as skipped.
    assert!(empty.eval());

    let skip = Skip(vec![("linux".to_string(), Span::new_blank())], Some(false));
    assert!(!skip.is_empty());
    assert!(!skip.eval());

    let skip = Skip(vec![("linux".to_string(), Span::new_blank())], Some(true));
    assert!(skip.eval());
}

#[test]
fn with_eval_first_true_wins() {
    let skip = Skip(
        vec![
            ("osx".to_string(), Span::new_blank()),
            ("linux".to_string(), Span::new_blank()),
        ],
        None,
    );
    let evals: Vec<Result<bool, String>> = vec![Ok(false), Ok(true)];
    let evaluated = skip.with_eval(&evals).unwrap();
    assert_eq!(evaluated.1, Some(true));
    assert_eq!(evaluated.0.len(), 2);
}

#[test]
fn with_eval_all_false() {
    let skip = Skip(
        vec![
            ("osx".to_string(), Span::new_blank()),
            ("win".to_string(), Span::new_blank()),
        ],
        None,
    );
    let evals: Vec<Result<bool, String>> = vec![Ok(false), Ok(false)];
    let evaluated = skip.with_eval(&evals).unwrap();
    assert_eq!(evaluated.1, Some(false));
}

#[test]
fn with_eval_error_propagates() {
    let skip = Skip(
        vec![
            ("osx".to_string(), Span::new_blank()),
            ("bogus ~".to_string(), Span::new_blank()),
        ],
        None,
    );
    let evals: Vec<Result<bool, String>> = vec![Ok(false), Err("undefined variable".to_string())];
    let err = skip.with_eval(&evals).unwrap_err();
    assert_eq!(err, "undefined variable");
}

#[test]
fn with_eval_no_conditions_is_false() {
    let skip = Skip(vec![], None);
    let evals: Vec<Result<bool, String>> = vec![];
    let evaluated = skip.with_eval(&evals).unwrap();
    assert_eq!(evaluated.1, Some(false));
    assert!(evaluated.eval() == false);
}
