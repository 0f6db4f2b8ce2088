//! The pipeline state machine: read input, authenticate, fetch recipes,
//! build and emit the picklist. Every decision of the run is taken here;
//! the surrounding program only performs the returned actions (the two
//! network calls and the file write) and feeds the outcome back as the
//! next event. Any failure aborts the run: there is no retry and no
//! partial-success path.

use vstd::prelude::*;

verus! {

use crate::recipe::Recipe;
use crate::rows::build_rows;
use crate::rows::header;
use crate::rows::header_fields;
use crate::rows::picklist_rows;
use crate::runid::output_file_name;

/// Where a run stands. `Failed` is terminal and reachable from every
/// stage; `Done` is the only other terminal stage.
pub enum Stage {
    /// Waiting for the identifier batch.
    ReadInput,
    /// Holding a non-empty identifier batch, waiting for the token.
    Authenticate { codes: Vec<String> },
    /// Token obtained and fetch issued, waiting for the recipes.
    FetchRecipes,
    /// Rows handed out for writing, waiting for the write to finish.
    BuildAndEmit { file_name: String },
    /// The run succeeded and `file_name` holds the picklist.
    Done { file_name: String },
    /// The run failed; `message` says why.
    Failed { message: String },
}

/// What the outside world reports back to the machine.
pub enum Event {
    /// The identifier batch was read, in input order, duplicates kept.
    CodesParsed { codes: Vec<String> },
    /// The input could not be read or parsed.
    InputFailed { message: String },
    /// The identity endpoint answered. `success` is whether the HTTP
    /// status was a success; `token` is the decoded bearer token, absent
    /// when the body did not decode; `body` is the response body text on a
    /// non-success status, else the decode error text.
    AuthResponded { success: bool, token: Option<String>, body: String },
    /// The recipe endpoint answered; fields as for `AuthResponded`, with
    /// the decoded recipe collection in place of the token.
    FetchResponded { success: bool, recipes: Option<Vec<Recipe>>, body: String },
    /// The output file write finished; `message` is the error text when it
    /// did not succeed.
    EmitFinished { ok: bool, message: String },
}

/// What the machine asks the outside world to do next. `Stop` asks for
/// nothing: the run is over.
pub enum Action {
    /// Exchange the credentials for a bearer token.
    CallAuth,
    /// Fetch the recipes for `codes`, authorized by `token`.
    CallFetch { token: String, codes: Vec<String> },
    /// Write `header` then `rows` to the file named `file_name`.
    WriteFile { file_name: String, header: Vec<String>, rows: Vec<Vec<String>> },
    /// Nothing remains to be done.
    Stop,
}

/// Validity of an event's payload: every recipe handed in is well formed.
pub open spec fn event_wf(ev: Event) -> bool {
    match ev {
        Event::FetchResponded { recipes, .. } => match recipes {
            Some(rs) => forall|i: int| 0 <= i < rs@.len() ==> (#[trigger] rs@[i]).wf(),
            None => true,
        },
        _ => true,
    }
}

/// The transition relation of the pipeline: exactly which stage and which
/// action follow from a stage and an event.
pub open spec fn step_rel(pre: Stage, ev: Event, post: Stage, act: Action) -> bool {
    match (pre, ev) {
        (Stage::ReadInput, Event::CodesParsed { codes }) => {
            if codes@.len() == 0 {
                &&& post matches Stage::Failed { message } && message@
                    == "No codes found in csv file"@
                &&& act is Stop
            } else {
                &&& post matches Stage::Authenticate { codes: held } && held == codes
                &&& act is CallAuth
            }
        },
        (Stage::ReadInput, Event::InputFailed { message }) => {
            &&& post matches Stage::Failed { message: held } && held == message
            &&& act is Stop
        },
        (Stage::Authenticate { codes }, Event::AuthResponded { success, token, body }) => {
            if !success {
                &&& post matches Stage::Failed { message } && message == body
                &&& act is Stop
            } else {
                match token {
                    Some(t) => {
                        &&& post is FetchRecipes
                        &&& act matches Action::CallFetch { token: sent, codes: batch } && sent
                            == t && batch == codes
                    },
                    None => {
                        &&& post matches Stage::Failed { message } && message == body
                        &&& act is Stop
                    },
                }
            }
        },
        (Stage::FetchRecipes, Event::FetchResponded { success, recipes, body }) => {
            if !success {
                &&& post matches Stage::Failed { message } && message == body
                &&& act is Stop
            } else {
                match recipes {
                    None => {
                        &&& post matches Stage::Failed { message } && message == body
                        &&& act is Stop
                    },
                    Some(rs) => {
                        if rs@.len() == 0 {
                            &&& post matches Stage::Failed { message } && message@
                                == "No recipes found"@
                            &&& act is Stop
                        } else {
                            &&& act matches Action::WriteFile { file_name, header: hdr, rows }
                            &&& {
                                &&& hdr.deep_view() == header_fields()
                                &&& rows.deep_view() == picklist_rows(rs@)
                                &&& file_name@.len() == 40
                                &&& file_name@.subrange(26, 40) == "_picklists.csv"@
                                &&& post matches Stage::BuildAndEmit { file_name: held } && held
                                    == file_name
                            }
                        }
                    },
                }
            }
        },
        (Stage::BuildAndEmit { file_name }, Event::EmitFinished { ok, message }) => {
            if ok {
                &&& post matches Stage::Done { file_name: held } && held == file_name
                &&& act is Stop
            } else {
                &&& post matches Stage::Failed { message: held } && held == message
                &&& act is Stop
            }
        },
        _ => {
            &&& post matches Stage::Failed { message } && message@ == "unexpected pipeline event"@
            &&& act is Stop
        },
    }
}

/// Advances the pipeline by one event and says what to do next.
pub fn step(stage: Stage, event: Event) -> (r: (Stage, Action))
    requires
        event_wf(event),
    ensures
        step_rel(stage, event, r.0, r.1),
{
    match (stage, event) {
        (Stage::ReadInput, Event::CodesParsed { codes }) => {
            if codes.len() == 0 {
                (
                    Stage::Failed { message: "No codes found in csv file".to_owned() },
                    Action::Stop,
                )
            } else {
                (Stage::Authenticate { codes }, Action::CallAuth)
            }
        },
        (Stage::ReadInput, Event::InputFailed { message }) => {
            (Stage::Failed { message }, Action::Stop)
        },
        (Stage::Authenticate { codes }, Event::AuthResponded { success, token, body }) => {
            if !success {
                (Stage::Failed { message: body }, Action::Stop)
            } else {
                match token {
                    Some(t) => (Stage::FetchRecipes, Action::CallFetch { token: t, codes }),
                    None => (Stage::Failed { message: body }, Action::Stop),
                }
            }
        },
        (Stage::FetchRecipes, Event::FetchResponded { success, recipes, body }) => {
            if !success {
                (Stage::Failed { message: body }, Action::Stop)
            } else {
                match recipes {
                    None => (Stage::Failed { message: body }, Action::Stop),
                    Some(rs) => {
                        if rs.len() == 0 {
                            (Stage::Failed { message: "No recipes found".to_owned() }, Action::Stop)
                        } else {
                            let rows = build_rows(&rs);
                            let hdr = header();
                            let file_name = output_file_name();
                            let named = file_name.clone();
                            (
                                Stage::BuildAndEmit { file_name },
                                Action::WriteFile { file_name: named, header: hdr, rows },
                            )
                        }
                    },
                }
            }
        },
        (Stage::BuildAndEmit { file_name }, Event::EmitFinished { ok, message }) => {
            if ok {
                (Stage::Done { file_name }, Action::Stop)
            } else {
                (Stage::Failed { message }, Action::Stop)
            }
        },
        (_, _) => {
            (Stage::Failed { message: "unexpected pipeline event".to_owned() }, Action::Stop)
        },
    }
}

/// An empty identifier batch fails the run before any network action: the
/// machine stops at once, so neither the identity endpoint nor the recipe
/// endpoint is ever called.
pub proof fn lemma_empty_batch_fails(codes: Vec<String>, post: Stage, act: Action)
    requires
        codes@.len() == 0,
        step_rel(Stage::ReadInput, (Event::CodesParsed { codes }), post, act),
    ensures
        post is Failed,
        act is Stop,
{
}

/// An empty recipe collection fails the run, and the machine asks for no
/// file write, so no output file is created.
pub proof fn lemma_empty_recipes_fail(recipes: Vec<Recipe>, body: String, post: Stage, act: Action)
    requires
        recipes@.len() == 0,
        step_rel(
            Stage::FetchRecipes,
            (Event::FetchResponded { success: true, recipes: Some(recipes), body }),
            post,
            act,
        ),
    ensures
        post is Failed,
        act is Stop,
{
}

/// A non-success status from the identity endpoint fails the run with the
/// endpoint's response body as the message.
pub proof fn lemma_auth_error_surfaces_body(
    codes: Vec<String>,
    token: Option<String>,
    body: String,
    post: Stage,
    act: Action,
)
    requires
        step_rel(
            (Stage::Authenticate { codes }),
            (Event::AuthResponded { success: false, token, body }),
            post,
            act,
        ),
    ensures
        post matches Stage::Failed { message } && message == body,
        act is Stop,
{
}

/// A non-success status from the recipe endpoint fails the run with the
/// endpoint's response body as the message.
pub proof fn lemma_fetch_error_surfaces_body(
    recipes: Option<Vec<Recipe>>,
    body: String,
    post: Stage,
    act: Action,
)
    requires
        step_rel(
            Stage::FetchRecipes,
            (Event::FetchResponded { success: false, recipes, body }),
            post,
            act,
        ),
    ensures
        post matches Stage::Failed { message } && message == body,
        act is Stop,
{
}

} // verus!
