use picklist::pipeline::Action;
use picklist::pipeline::Event;
use picklist::pipeline::Stage;
use picklist::pipeline::step;
use picklist::ratio::Ratio;
use picklist::ratio::RatioTable;
use picklist::recipe::Recipe;
use picklist::recipe::Sku;

fn soup_recipe() -> Recipe {
    let table = RatioTable::empty()
        .with_tier(2, Ratio::new(3, 2).unwrap())
        .with_tier(4, Ratio::new(3, 1).unwrap());
    Recipe {
        title: "Soup".to_string(),
        skus: vec![Sku {
            code: "S1".to_string(),
            name: "Carrot".to_string(),
            servings_ratio: table,
        }],
    }
}

fn failure_message(stage: Stage) -> String {
    match stage {
        Stage::Failed { message } => message,
        _ => panic!("expected the run to have failed"),
    }
}

#[test]
fn empty_batch_fails_before_any_network_call() {
    let (stage, action) = step(Stage::ReadInput, Event::CodesParsed { codes: vec![] });
    assert!(matches!(action, Action::Stop));
    assert_eq!(failure_message(stage), "No codes found in csv file");
}

#[test]
fn unreadable_input_fails_the_run() {
    let (stage, action) = step(
        Stage::ReadInput,
        Event::InputFailed { message: "cannot open input".to_string() },
    );
    assert!(matches!(action, Action::Stop));
    assert_eq!(failure_message(stage), "cannot open input");
}

#[test]
fn auth_error_surfaces_the_response_body() {
    let (stage, action) = step(
        Stage::Authenticate { codes: vec!["R1".to_string()] },
        Event::AuthResponded {
            success: false,
            token: None,
            body: "invalid_grant".to_string(),
        },
    );
    assert!(matches!(action, Action::Stop));
    assert_eq!(failure_message(stage), "invalid_grant");
}

#[test]
fn auth_decode_failure_fails_the_run() {
    let (stage, action) = step(
        Stage::Authenticate { codes: vec!["R1".to_string()] },
        Event::AuthResponded {
            success: true,
            token: None,
            body: "missing field access_token".to_string(),
        },
    );
    assert!(matches!(action, Action::Stop));
    assert_eq!(failure_message(stage), "missing field access_token");
}

#[test]
fn fetch_error_surfaces_the_response_body() {
    let (stage, action) = step(
        Stage::FetchRecipes,
        Event::FetchResponded {
            success: false,
            recipes: None,
            body: "market not found".to_string(),
        },
    );
    assert!(matches!(action, Action::Stop));
    assert_eq!(failure_message(stage), "market not found");
}

#[test]
fn empty_recipe_result_fails_and_writes_nothing() {
    let (stage, action) = step(
        Stage::FetchRecipes,
        Event::FetchResponded {
            success: true,
            recipes: Some(vec![]),
            body: String::new(),
        },
    );
    assert!(matches!(action, Action::Stop));
    assert_eq!(failure_message(stage), "No recipes found");
}

#[test]
fn emit_failure_fails_the_run() {
    let (stage, action) = step(
        Stage::BuildAndEmit { file_name: "x_picklists.csv".to_string() },
        Event::EmitFinished { ok: false, message: "disk full".to_string() },
    );
    assert!(matches!(action, Action::Stop));
    assert_eq!(failure_message(stage), "disk full");
}

#[test]
fn mismatched_event_fails_the_run() {
    let (stage, action) = step(
        Stage::ReadInput,
        Event::EmitFinished { ok: true, message: String::new() },
    );
    assert!(matches!(action, Action::Stop));
    assert_eq!(failure_message(stage), "unexpected pipeline event");
}

#[test]
fn happy_path_runs_the_four_stages_in_order() {
    // Read: one identifier.
    let (stage, action) = step(
        Stage::ReadInput,
        Event::CodesParsed { codes: vec!["R1".to_string()] },
    );
    assert!(matches!(action, Action::CallAuth));
    let stage = match stage {
        Stage::Authenticate { ref codes } => {
            assert_eq!(codes, &vec!["R1".to_string()]);
            stage
        }
        _ => panic!("expected the authenticate stage"),
    };

    // Authenticate: the token comes back.
    let (stage, action) = step(
        stage,
        Event::AuthResponded {
            success: true,
            token: Some("tok".to_string()),
            body: String::new(),
        },
    );
    match action {
        Action::CallFetch { token, codes } => {
            assert_eq!(token, "tok");
            assert_eq!(codes, vec!["R1".to_string()]);
        }
        _ => panic!("expected a fetch action"),
    }
    assert!(matches!(stage, Stage::FetchRecipes));

    // Fetch: one recipe with one item.
    let (stage, action) = step(
        stage,
        Event::FetchResponded {
            success: true,
            recipes: Some(vec![soup_recipe()]),
            body: String::new(),
        },
    );
    let (named, header, rows) = match action {
        Action::WriteFile { file_name, header, rows } => (file_name, header, rows),
        _ => panic!("expected a write action"),
    };
    assert!(named.ends_with("_picklists.csv"));
    assert_eq!(named.len(), 40);
    assert_eq!(header.len(), 9);
    assert_eq!(header[0], "name");
    assert_eq!(rows.len(), 1);
    assert_eq!(rows[0], vec!["Soup", "S1", "Carrot", "0", "2", "0", "3", "0", "0"]);
    match &stage {
        Stage::BuildAndEmit { file_name } => assert_eq!(file_name, &named),
        _ => panic!("expected the emit stage"),
    }

    // Emit: the write succeeds and the run is done.
    let (stage, action) = step(stage, Event::EmitFinished { ok: true, message: String::new() });
    assert!(matches!(action, Action::Stop));
    match stage {
        Stage::Done { file_name } => assert_eq!(file_name, named),
        _ => panic!("expected the run to be done"),
    }
}

#[test]
fn two_identifiers_two_recipes_two_rows() {
    let mut stew = soup_recipe();
    stew.title = "Stew".to_string();
    stew.skus[0].code = "S2".to_string();
    stew.skus[0].name = "Potato".to_string();

    let (stage, action) = step(
        Stage::FetchRecipes,
        Event::FetchResponded {
            success: true,
            recipes: Some(vec![soup_recipe(), stew]),
            body: String::new(),
        },
    );
    assert!(matches!(stage, Stage::BuildAndEmit { .. }));
    let (header, rows) = match action {
        Action::WriteFile { header, rows, .. } => (header, rows),
        _ => panic!("expected a write action"),
    };
    assert_eq!(header.len(), 9);
    assert_eq!(rows.len(), 2);
    assert_eq!(rows[0][0], "Soup");
    assert_eq!(rows[1][0], "Stew");
    for row in &rows {
        assert_eq!(row.len(), 9);
    }
}
