//! What a payload is read as before its call is made.
//!
//! Reading is arithmetic on a string, so a payload that asks for nothing that can
//! be done is refused at once, under the error that its method declares, and not
//! after a thread has been found for the work.

use crate::json::{Json, Value};
use crate::refs;
use crate::refs::listing;
use crate::refs::{Asked, CreateRef, Init, ListRefs, SwitchRef};
use crate::refusals::Method;
use crate::rpc;
use crate::rpc::{Call, DispatchError};
use crate::settings;
use crate::settings::Update;
use crate::text;
use vstd::prelude::*;

verus! {

/// Text as the contracts see it.
pub type Text = Seq<char>;

/// What a payload has to be taken apart into.
#[derive(Debug, Clone, Copy, PartialEq, Eq, Structural)]
pub enum Shape {
    ListRefs,
    CreateRef,
    SwitchRef,
    Init,
    /// Nothing: it is handed on as it was sent.
    Sent,
}

/// What the payload of a call has to be taken apart into.
pub open spec fn shape_of(call: Call) -> Shape {
    match call {
        Call::Contract(Method::VcsListRefs) => Shape::ListRefs,
        Call::Contract(Method::VcsCreateRef) => Shape::CreateRef,
        Call::Contract(Method::VcsSwitchRef) => Shape::SwitchRef,
        Call::Contract(Method::VcsInit) => Shape::Init,
        _ => Shape::Sent,
    }
}

/// What the payload of a call has to be taken apart into.
pub fn shape(call: Call) -> (out: Shape)
    ensures
        out == shape_of(call),
{
    match call {
        Call::Contract(Method::VcsListRefs) => Shape::ListRefs,
        Call::Contract(Method::VcsCreateRef) => Shape::CreateRef,
        Call::Contract(Method::VcsSwitchRef) => Shape::SwitchRef,
        Call::Contract(Method::VcsInit) => Shape::Init,
        _ => Shape::Sent,
    }
}

/// A payload that was taken apart, as far as it could be.
#[derive(Debug, PartialEq, Eq)]
pub enum Payload<S, J> {
    ListRefs { cwd: S, asked: Asked<S> },
    CreateRef { cwd: S, ref_name: S, switch_ref: Option<bool> },
    SwitchRef { cwd: S, ref_name: S },
    Init { cwd: S, kind: Option<S> },
    /// It is none of its shape: what is wrong with it, and the refusal of git for a
    /// payload of which that is wrong.
    Unreadable { error: S, refusal: J },
    Sent(J),
}

impl View for Payload<String, Json> {
    type V = Payload<Text, Value>;

    open spec fn view(&self) -> Payload<Text, Value> {
        match self {
            Payload::ListRefs { cwd, asked } => Payload::ListRefs { cwd: cwd@, asked: asked@ },
            Payload::CreateRef { cwd, ref_name, switch_ref } => Payload::CreateRef {
                cwd: cwd@,
                ref_name: ref_name@,
                switch_ref: *switch_ref,
            },
            Payload::SwitchRef { cwd, ref_name } => Payload::SwitchRef { cwd: cwd@, ref_name: ref_name@ },
            Payload::Init { cwd, kind } => Payload::Init { cwd: cwd@, kind: text::maybe(*kind) },
            Payload::Unreadable { error, refusal } => Payload::Unreadable { error: error@, refusal: refusal@ },
            Payload::Sent(value) => Payload::Sent(value@),
        }
    }
}

impl Payload<Text, Value> {
    /// Whether a payload is of a shape, or could not be taken apart into it.
    pub open spec fn fits(self, shape: Shape) -> bool {
        match shape {
            Shape::ListRefs => self is ListRefs || self is Unreadable,
            Shape::CreateRef => self is CreateRef || self is Unreadable,
            Shape::SwitchRef => self is SwitchRef || self is Unreadable,
            Shape::Init => self is Init || self is Unreadable,
            Shape::Sent => self is Sent,
        }
    }
}

/// A call whose payload was read, or is read by whoever makes the call.
#[derive(Debug, PartialEq, Eq)]
pub enum Prepared<S, P, J> {
    ListRefs(ListRefs<S>),
    CreateRef(CreateRef<S>),
    SwitchRef(SwitchRef<S>),
    Init(Init<S>),
    UpdateSettings(P),
    Sent(J),
}

impl View for Prepared<String, Update, Json> {
    type V = Prepared<Text, Seq<(Text, Value)>, Value>;

    open spec fn view(&self) -> Prepared<Text, Seq<(Text, Value)>, Value> {
        match self {
            Prepared::ListRefs(call) => Prepared::ListRefs(call@),
            Prepared::CreateRef(call) => Prepared::CreateRef(call@),
            Prepared::SwitchRef(call) => Prepared::SwitchRef(call@),
            Prepared::Init(call) => Prepared::Init(call@),
            Prepared::UpdateSettings(update) => Prepared::UpdateSettings(crate::json::fields_view(update.patch@)),
            Prepared::Sent(value) => Prepared::Sent(value@),
        }
    }
}

/// What is read of a payload: the call to go on with, or the refusal that its
/// method declares.
pub type Reading = Result<Prepared<Text, Seq<(Text, Value)>, Value>, DispatchError<Text, Value>>;

/// A refusal that the method declares.
pub open spec fn declined(error: Value) -> Reading {
    Err(DispatchError::Declared(error))
}

/// The listing that a payload asks for, or the refusal.
pub open spec fn listing_read(cwd: Text, asked: Asked<Text>) -> Reading {
    match refs::workspace_in(cwd, "vcs.listRefs"@) {
        Ok(folder) => Ok(
            Prepared::ListRefs(listing::listing_call(folder, asked, listing::lowered(asked.query))),
        ),
        Err(refusal) => declined(refusal),
    }
}

/// The branch that a payload asks to be made, or the refusal.
pub open spec fn creation_read(cwd: Text, ref_name: Text, switch_ref: Option<bool>) -> Reading {
    match refs::workspace_and_name_in(cwd, ref_name, "vcs.createRef"@) {
        Ok((folder, name)) => Ok(
            Prepared::CreateRef(CreateRef { cwd: folder, name, switch: switch_ref == Some(true) }),
        ),
        Err(refusal) => declined(refusal),
    }
}

/// The branch that a payload asks to be switched to, or the refusal.
pub open spec fn switch_read(cwd: Text, ref_name: Text) -> Reading {
    match refs::workspace_and_name_in(cwd, ref_name, "vcs.switchRef"@) {
        Ok((folder, name)) => Ok(Prepared::SwitchRef(SwitchRef { cwd: folder, name })),
        Err(refusal) => declined(refusal),
    }
}

/// The repository that a payload asks to be made, or the refusal.
pub open spec fn init_read(cwd: Text, kind: Option<Text>) -> Reading {
    if text::trimmed(cwd).len() == 0 {
        declined(refs::detection_error(""@, "This call needs a workspace root; none was given."@))
    } else {
        Ok(Prepared::Init(Init { cwd: text::trimmed(cwd), driver: refs::driver_named(kind) }))
    }
}

/// The change of settings that a payload asks for, or the refusal.
pub open spec fn update_read(payload: Value, settings_path: Text) -> Reading {
    match settings::patch_in(payload) {
        Ok(patch) => Ok(Prepared::UpdateSettings(patch)),
        Err(why) => declined(settings::refusal(settings_path, settings::Operation::Normalize, why)),
    }
}

/// What is read of the payload of a call. One that could not be taken apart is
/// refused, for a repository that is to be made as a place that was not found, and
/// for the other calls about branches as git refuses it. A call whose reader is
/// not here goes on with its payload as it was sent.
pub open spec fn read_for(call: Call, payload: Payload<Text, Value>, settings_path: Text) -> Reading {
    match payload {
        Payload::ListRefs { cwd, asked } => listing_read(cwd, asked),
        Payload::CreateRef { cwd, ref_name, switch_ref } => creation_read(cwd, ref_name, switch_ref),
        Payload::SwitchRef { cwd, ref_name } => switch_read(cwd, ref_name),
        Payload::Init { cwd, kind } => init_read(cwd, kind),
        Payload::Unreadable { error, refusal } => if call == Call::Contract(Method::VcsInit) {
            declined(refs::detection_error(""@, "This call is malformed: "@ + error))
        } else {
            declined(refusal)
        },
        Payload::Sent(value) => if call == Call::Contract(Method::ServerUpdateSettings) {
            update_read(value, settings_path)
        } else {
            Ok(Prepared::Sent(value))
        },
    }
}

/// The view of what was read of a payload.
pub open spec fn reading_view(
    read: Result<Prepared<String, Update, Json>, DispatchError<String, Json>>,
) -> Reading {
    match read {
        Ok(prepared) => Ok(prepared@),
        Err(refused) => Err(refused@),
    }
}

/// Reads the payload of a call: the call to go on with, or the refusal that its
/// method declares. `settings_path` is what a refused change of settings names.
pub fn prepare(call: Call, payload: Payload<String, Json>, settings_path: &str) -> (out: Result<
    Prepared<String, Update, Json>,
    DispatchError<String, Json>,
>)
    requires
        payload@.fits(shape_of(call)),
    ensures
        reading_view(out) == read_for(call, payload@, settings_path@),
{
    match payload {
        Payload::ListRefs { cwd, asked } => match ListRefs::read(&cwd, &asked) {
            Ok(call) => Ok(Prepared::ListRefs(call)),
            Err(refusal) => Err(DispatchError::Declared(refusal)),
        },
        Payload::CreateRef { cwd, ref_name, switch_ref } => match CreateRef::read(&cwd, &ref_name, switch_ref) {
            Ok(call) => Ok(Prepared::CreateRef(call)),
            Err(refusal) => Err(DispatchError::Declared(refusal)),
        },
        Payload::SwitchRef { cwd, ref_name } => match SwitchRef::read(&cwd, &ref_name) {
            Ok(call) => Ok(Prepared::SwitchRef(call)),
            Err(refusal) => Err(DispatchError::Declared(refusal)),
        },
        Payload::Init { cwd, kind } => match Init::read(&cwd, &kind) {
            Ok(call) => Ok(Prepared::Init(call)),
            Err(refusal) => Err(DispatchError::Declared(refusal)),
        },
        Payload::Unreadable { error, refusal } => {
            let refusal = match call {
                Call::Contract(Method::VcsInit) => refs::detection_failed(
                    "",
                    &text::glue("This call is malformed: ", &error),
                ),
                _ => refusal,
            };
            Err(DispatchError::Declared(refusal))
        },
        Payload::Sent(value) => match call {
            Call::Contract(Method::ServerUpdateSettings) => match Update::read(value, settings_path) {
                Ok(update) => Ok(Prepared::UpdateSettings(update)),
                Err(refusal) => Err(DispatchError::Declared(refusal)),
            },
            _ => Ok(Prepared::Sent(value)),
        },
    }
}

// ---------------------------------------------------------------------------
// What a command leaves to be done
// ---------------------------------------------------------------------------

/// Whether skills are looked for again once a call was answered: after a command
/// that was carried out and changed the directories that they are read from.
pub open spec fn rescans(call: Call, payload: Value, carried_out: bool) -> bool {
    &&& call == Call::Contract(Method::OrchestrationDispatchCommand)
    &&& carried_out
    &&& rpc::moves_skills(payload)
}

/// Whether skills are looked for again once a call was answered. A command that
/// was refused rescans nothing.
pub fn rescans_skills(call: Call, payload: &Json, carried_out: bool) -> (out: bool)
    ensures
        out == rescans(call, payload@, carried_out),
{
    match call {
        Call::Contract(Method::OrchestrationDispatchCommand) => carried_out && rpc::changes_where_skills_live(payload),
        _ => false,
    }
}

// ---------------------------------------------------------------------------
// Laws
// ---------------------------------------------------------------------------

/// A payload is refused only under an error that its method declares, never as an
/// unknown method, and a call goes on with what its own reader read.
pub proof fn a_payload_is_read_for_its_own_call(call: Call, payload: Payload<Text, Value>, settings_path: Text)
    requires
        payload.fits(shape_of(call)),
    ensures
        match read_for(call, payload, settings_path) {
            Err(refused) => refused is Declared,
            Ok(prepared) => match call {
                Call::Contract(Method::VcsListRefs) => prepared is ListRefs,
                Call::Contract(Method::VcsCreateRef) => prepared is CreateRef,
                Call::Contract(Method::VcsSwitchRef) => prepared is SwitchRef,
                Call::Contract(Method::VcsInit) => prepared is Init,
                Call::Contract(Method::ServerUpdateSettings) => prepared is UpdateSettings,
                _ => prepared is Sent,
            },
        },
{
}

/// Every call whose payload is read here is one whose work is done off the read
/// loop, so that a payload which cannot be read costs no thread.
pub proof fn what_is_read_here_is_deferred(method: Method)
    ensures
        shape_of(Call::Contract(method)) != Shape::Sent || method == Method::ServerUpdateSettings ==> rpc::answers(
            method,
        ) == Some(rpc::Answered::Deferred),
{
}

/// A call is made only with a folder to make it in: what goes on to git names one.
pub proof fn a_call_about_branches_names_a_folder(call: Call, payload: Payload<Text, Value>, settings_path: Text)
    ensures
        read_for(call, payload, settings_path) matches Ok(prepared) ==> match prepared {
            Prepared::ListRefs(call) => call.cwd.len() > 0,
            Prepared::CreateRef(call) => call.cwd.len() > 0 && refs::names::checked(call.name) == Ok::<Text, Text>(
                call.name,
            ),
            Prepared::SwitchRef(call) => call.cwd.len() > 0 && refs::names::checked(call.name) == Ok::<Text, Text>(
                call.name,
            ),
            Prepared::Init(call) => call.cwd.len() > 0,
            _ => true,
        },
{
    match payload {
        Payload::CreateRef { ref_name, .. } => {
            text::trimming_is_idempotent(ref_name);
        },
        Payload::SwitchRef { ref_name, .. } => {
            text::trimming_is_idempotent(ref_name);
        },
        _ => {},
    }
}

/// The calls about branches and repositories are read here, each in its own shape,
/// and every other is passed on as it was sent.
pub proof fn a_call_has_its_own_shape(call: Call)
    ensures
        shape_of(call) is ListRefs <==> call == Call::Contract(Method::VcsListRefs),
        shape_of(call) is CreateRef <==> call == Call::Contract(Method::VcsCreateRef),
        shape_of(call) is SwitchRef <==> call == Call::Contract(Method::VcsSwitchRef),
        shape_of(call) is Init <==> call == Call::Contract(Method::VcsInit),
{
}

/// A branch is created by its checked name, in the folder that was named, and is
/// switched to only where that was asked for; a switch and an initialisation are of
/// what they name.
pub proof fn a_payload_is_read_for_what_it_says(
    call: Call,
    path: Text,
    cwd: Text,
    ref_name: Text,
    switch_ref: Option<bool>,
    kind: Option<Text>,
    asked: Asked<Text>,
)
    ensures
        read_for(call, Payload::CreateRef { cwd, ref_name, switch_ref }, path) matches Ok(prepared) ==> (prepared matches
            Prepared::CreateRef(made) && made.cwd == text::trimmed(cwd) && refs::names::checked(ref_name) == Ok::<Text, Text>(
            made.name,
        ) && (made.switch <==> switch_ref == Some(true))),
        read_for(call, Payload::SwitchRef { cwd, ref_name }, path) matches Ok(prepared) ==> (prepared matches
            Prepared::SwitchRef(made) && made.cwd == text::trimmed(cwd) && refs::names::checked(ref_name) == Ok::<Text, Text>(
            made.name,
        )),
        read_for(call, Payload::Init { cwd, kind }, path) matches Ok(prepared) ==> (prepared matches Prepared::Init(made)
            && made.cwd == text::trimmed(cwd)),
        read_for(call, Payload::Init { cwd, kind }, path) is Ok <==> text::trimmed(cwd).len() > 0,
        read_for(call, Payload::ListRefs { cwd, asked }, path) matches Ok(prepared) ==> (prepared matches
            Prepared::ListRefs(made) && made.cwd == text::trimmed(cwd)),
        read_for(call, Payload::ListRefs { cwd, asked }, path) is Ok <==> text::trimmed(cwd).len() > 0,
        read_for(call, Payload::CreateRef { cwd, ref_name, switch_ref }, path) is Ok <==> text::trimmed(cwd).len() > 0
            && refs::names::checked(ref_name) is Ok,
        read_for(call, Payload::SwitchRef { cwd, ref_name }, path) is Ok <==> text::trimmed(cwd).len() > 0
            && refs::names::checked(ref_name) is Ok,
{
}

/// A payload that could not be read is refused in the words of its call, and one that
/// is passed on is passed on as it was sent, but for an update of the settings, which
/// is read for the patch that it holds.
pub proof fn a_payload_is_passed_on_or_refused(
    call: Call,
    path: Text,
    error: Text,
    refusal: Value,
    value: Value,
)
    ensures
        call != Call::Contract(Method::VcsInit) ==> read_for(call, Payload::Unreadable { error, refusal }, path) == Err::<
            Prepared<Text, Seq<(Text, Value)>, Value>,
            DispatchError<Text, Value>,
        >(DispatchError::Declared(refusal)),
        call == Call::Contract(Method::VcsInit) ==> read_for(call, Payload::Unreadable { error, refusal }, path) == Err::<
            Prepared<Text, Seq<(Text, Value)>, Value>,
            DispatchError<Text, Value>,
        >(DispatchError::Declared(refs::detection_error(""@, "This call is malformed: "@ + error))),
        call != Call::Contract(Method::ServerUpdateSettings) ==> read_for(call, Payload::Sent(value), path) == Ok::<
            Prepared<Text, Seq<(Text, Value)>, Value>,
            DispatchError<Text, Value>,
        >(Prepared::Sent(value)),
        call == Call::Contract(Method::ServerUpdateSettings) ==> match settings::patch_in(value) {
            Ok(patch) => read_for(call, Payload::Sent(value), path) == Ok::<
                Prepared<Text, Seq<(Text, Value)>, Value>,
                DispatchError<Text, Value>,
            >(Prepared::UpdateSettings(patch)),
            Err(why) => read_for(call, Payload::Sent(value), path) == Err::<
                Prepared<Text, Seq<(Text, Value)>, Value>,
                DispatchError<Text, Value>,
            >(DispatchError::Declared(settings::refusal(path, settings::Operation::Normalize, why))),
        },
{
}

/// What a call is refused with names that call.
pub proof fn a_refused_call_is_named(call: Call, path: Text, cwd: Text, ref_name: Text, switch_ref: Option<bool>, asked: Asked<Text>)
    requires
        text::trimmed(cwd).len() == 0,
    ensures
        read_for(call, Payload::ListRefs { cwd, asked }, path) == declined(refs::workspace_in(cwd, "vcs.listRefs"@)->Err_0),
        read_for(call, Payload::CreateRef { cwd, ref_name, switch_ref }, path) == declined(
            refs::workspace_in(cwd, "vcs.createRef"@)->Err_0,
        ),
        read_for(call, Payload::SwitchRef { cwd, ref_name }, path) == declined(
            refs::workspace_in(cwd, "vcs.switchRef"@)->Err_0,
        ),
        read_for(call, Payload::Init { cwd, kind: None }, path) == declined(
            refs::detection_error(""@, "This call needs a workspace root; none was given."@),
        ),
{
}

/// Skills are looked for again after a command that moved them was carried out, and
/// after nothing else.
pub proof fn skills_are_looked_for_after_they_moved(call: Call, payload: Value, carried_out: bool)
    ensures
        rescans(call, payload, carried_out) <==> call == Call::Contract(Method::OrchestrationDispatchCommand)
            && carried_out && (rpc::in_payload(payload, "type"@) == Some(Value::Text("project.create"@))
            || rpc::in_payload(payload, "type"@) == Some(Value::Text("project.delete"@))),
{
}

} // verus!
