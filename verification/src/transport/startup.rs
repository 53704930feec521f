//! How the transport comes up, and how serving ends.

use vstd::prelude::*;
use vstd::string::*;

use crate::transport::dispatcher;
use crate::transport::dispatcher::{DispatcherView, ServeActionView, ServeEventView};
use crate::transport::status;
use crate::transport::status::Status;

verus! {

/// What the driver has to do, in order.
pub enum StartupAction {
    /// Show a status.
    Show(Status),
    /// Register the interface, then report how it went.
    RegisterInterface,
    /// Reset the controller, so that a host that enumerated the device earlier
    /// sees the interface.
    ResetController,
    /// Start the reader.
    StartReader,
    /// Map the write buffer, then report how it went.
    MapWriteBuffer,
    /// Let the dispatcher serve.
    Serve,
    /// Wait for ever: there is nothing to serve.
    Park,
    /// End serving, without an error.
    Finish,
    /// End serving with an error of this text.
    Fail(String),
}

/// Mathematical counterpart of [`StartupAction`].
pub enum StartupActionView {
    Show(Seq<char>),
    RegisterInterface,
    ResetController,
    StartReader,
    MapWriteBuffer,
    Serve,
    Park,
    Finish,
    Fail(Seq<char>),
}

impl View for StartupAction {
    type V = StartupActionView;

    open spec fn view(&self) -> StartupActionView {
        match *self {
            StartupAction::Show(status) => StartupActionView::Show(status@),
            StartupAction::RegisterInterface => StartupActionView::RegisterInterface,
            StartupAction::ResetController => StartupActionView::ResetController,
            StartupAction::StartReader => StartupActionView::StartReader,
            StartupAction::MapWriteBuffer => StartupActionView::MapWriteBuffer,
            StartupAction::Serve => StartupActionView::Serve,
            StartupAction::Park => StartupActionView::Park,
            StartupAction::Finish => StartupActionView::Finish,
            StartupAction::Fail(text) => StartupActionView::Fail(text@),
        }
    }
}

/// The views of a sequence of actions.
pub open spec fn action_views(actions: Seq<StartupAction>) -> Seq<StartupActionView> {
    actions.map_values(|a: StartupAction| a@)
}

/// What is done first: the interface is registered.
pub open spec fn start_actions() -> Seq<StartupActionView> {
    seq![
        StartupActionView::Show("WebUSB: init"@),
        StartupActionView::Show("WebUSB: registering interface"@),
        StartupActionView::RegisterInterface,
    ]
}

/// What to do first.
pub fn start() -> (actions: Vec<StartupAction>)
    ensures
        action_views(actions@) == start_actions(),
{
    let mut actions: Vec<StartupAction> = Vec::new();
    actions.push(StartupAction::Show(Status::Init));
    actions.push(StartupAction::Show(Status::Registering));
    actions.push(StartupAction::RegisterInterface);
    assert(action_views(actions@) =~= start_actions());
    actions
}

/// Numbers of the registered endpoints.
#[derive(Clone, Copy, Debug, PartialEq, Eq, Structural)]
pub struct Endpoints {
    pub ep_out: u8,
    pub ep_in: u8,
}

/// What is done once the interface has been registered, or could not be. With an
/// interface, the controller is reset before anything is served. Without one,
/// there is nothing to do but to wait, and serving ends without an error should
/// the wait be over.
pub open spec fn registered_actions(outcome: Result<Endpoints, Seq<char>>) -> Seq<
    StartupActionView,
> {
    match outcome {
        Ok(endpoints) => seq![
            StartupActionView::Show("WebUSB: resetting USB"@),
            StartupActionView::ResetController,
            StartupActionView::Show(
                status::ready_text(endpoints.ep_out as nat, endpoints.ep_in as nat),
            ),
            StartupActionView::StartReader,
            StartupActionView::MapWriteBuffer,
        ],
        Err(error) => seq![
            StartupActionView::Show("WebUSB: register interface failed: "@ + error),
            StartupActionView::Park,
            StartupActionView::Finish,
        ],
    }
}

/// What to do once the interface has been registered, or could not be; the
/// error is given by its rendering.
pub fn registered(outcome: Result<Endpoints, String>) -> (actions: Vec<StartupAction>)
    ensures
        action_views(actions@) == registered_actions(
            match outcome {
                Ok(endpoints) => Ok(endpoints),
                Err(error) => Err(error@),
            },
        ),
{
    let mut actions: Vec<StartupAction> = Vec::new();
    match outcome {
        Ok(endpoints) => {
            let ready: Status = Status::Ready {
                ep_out: endpoints.ep_out,
                ep_in: endpoints.ep_in,
            };
            actions.push(StartupAction::Show(Status::Resetting));
            actions.push(StartupAction::ResetController);
            actions.push(StartupAction::Show(ready));
            actions.push(StartupAction::StartReader);
            actions.push(StartupAction::MapWriteBuffer);
            assert(action_views(actions@) =~= registered_actions(Ok(endpoints)));
        },
        Err(error) => {
            let ghost text = error@;
            actions.push(StartupAction::Show(Status::RegisterFailed { error }));
            actions.push(StartupAction::Park);
            actions.push(StartupAction::Finish);
            assert(action_views(actions@) =~= registered_actions(Err(text)));
        },
    }
    actions
}

/// What is done once the write buffer has been asked for: the dispatcher serves,
/// unless the buffer could not be mapped, which ends serving with an error.
pub open spec fn mapped_actions(map_error: Option<Seq<char>>) -> Seq<StartupActionView> {
    match map_error {
        Some(error) => seq![StartupActionView::Fail("webusb map write buf: "@ + error)],
        None => seq![StartupActionView::Serve],
    }
}

/// What to do once the write buffer has been asked for. If it could not be
/// mapped, `map_error` is the error's rendering.
pub fn write_buffer_mapped(map_error: Option<String>) -> (actions: Vec<StartupAction>)
    ensures
        action_views(actions@) == mapped_actions(
            match map_error {
                Some(error) => Some(error@),
                None => None,
            },
        ),
{
    let mut actions: Vec<StartupAction> = Vec::new();
    match map_error {
        Some(error) => {
            actions.push(
                StartupAction::Fail("webusb map write buf: ".to_owned().concat(error.as_str())),
            );
            assert(action_views(actions@) =~= mapped_actions(Some(error@)));
        },
        None => {
            actions.push(StartupAction::Serve);
            assert(action_views(actions@) =~= mapped_actions(None));
        },
    }
    actions
}

/// The result with which serving ends through these actions of coming up, if it
/// does.
pub open spec fn startup_result(actions: Seq<StartupActionView>) -> Option<
    Result<(), Seq<char>>,
> {
    if actions.len() == 0 {
        None
    } else {
        match actions.last() {
            StartupActionView::Finish => Some(Ok(())),
            StartupActionView::Fail(text) => Some(Err(text)),
            _ => None,
        }
    }
}

/// The result with which serving ends, if it has ended. `registration` is how
/// registering the interface went, `map_error` how mapping the write buffer
/// failed, and `events` is what has been reported to the dispatcher since.
pub open spec fn serving_result(
    registration: Result<Endpoints, Seq<char>>,
    map_error: Option<Seq<char>>,
    events: Seq<ServeEventView>,
) -> Option<Result<(), Seq<char>>> {
    if startup_result(registered_actions(registration)) is Some {
        startup_result(registered_actions(registration))
    } else if startup_result(mapped_actions(map_error)) is Some {
        startup_result(mapped_actions(map_error))
    } else if dispatcher::performed(DispatcherView::fresh(), events).contains(
        ServeActionView::Finish,
    ) {
        Some(Ok(()))
    } else {
        None
    }
}

/// Serving ends with an error exactly if the interface was registered and the
/// write buffer could not be mapped. It ends without one if the interface could
/// not be registered, and when the reader is gone; otherwise it goes on.
pub proof fn law_only_an_unmapped_buffer_is_an_error(
    registration: Result<Endpoints, Seq<char>>,
    map_error: Option<Seq<char>>,
    events: Seq<ServeEventView>,
)
    requires
        dispatcher::orderly(DispatcherView::fresh(), events),
    ensures
        serving_result(registration, map_error, events) == (match (registration, map_error) {
            (Err(_), _) => Some(Ok(())),
            (Ok(_), Some(error)) => Some(Err("webusb map write buf: "@ + error)),
            (Ok(_), None) => if events.len() > 0 && events.last() is ReaderGone {
                Some(Ok(()))
            } else {
                None
            },
        }),
{
    dispatcher::law_serving_ends_with_the_reader(DispatcherView::fresh(), events);
}

/// Coming up begins with registering the interface, announced, and asks for
/// nothing else before it is known how that went.
pub proof fn law_interface_is_registered_first()
    ensures
        start_actions().len() == 3,
        start_actions()[0] == StartupActionView::Show("WebUSB: init"@),
        start_actions()[1] == StartupActionView::Show("WebUSB: registering interface"@),
        start_actions()[2] is RegisterInterface,
{
}

/// Whatever the endpoint numbers, a registered interface is brought up in this
/// order: the controller is reset, once, as announced just before; then the
/// endpoints are shown as ready; then the reader is started, once; last, the write
/// buffer is mapped. Nothing ends, and nothing is registered again.
pub proof fn law_registered_interface_is_brought_up(endpoints: Endpoints)
    ensures
        ({
            let actions = registered_actions(Ok(endpoints));
            exists|reset: int, reader: int|
                #![trigger actions[reset], actions[reader]]
                {
                    &&& 0 < reset < reader < actions.len() - 1
                    &&& actions[reset - 1] == StartupActionView::Show("WebUSB: resetting USB"@)
                    &&& actions[reset + 1] == StartupActionView::Show(
                        status::ready_text(endpoints.ep_out as nat, endpoints.ep_in as nat),
                    )
                    &&& reader != reset + 1
                    &&& actions.last() is MapWriteBuffer
                    &&& forall|k: int|
                        #![trigger actions[k]]
                        0 <= k < actions.len() ==> {
                            &&& actions[k] is ResetController <==> k == reset
                            &&& actions[k] is StartReader <==> k == reader
                            &&& actions[k] is MapWriteBuffer <==> k == actions.len() - 1
                            &&& actions[k] is Show <==> k == reset - 1 || k == reset + 1
                        }
                }
        }),
{
    let actions = registered_actions(Ok(endpoints));
    assert(actions[1] is ResetController && actions[3] is StartReader);
}

/// The endpoint numbers decide nothing but what is shown.
pub proof fn law_endpoint_numbers_decide_nothing(a: Endpoints, b: Endpoints, i: int)
    requires
        0 <= i < registered_actions(Ok(a)).len(),
    ensures
        registered_actions(Ok(a)).len() == registered_actions(Ok(b)).len(),
        registered_actions(Ok(a))[i] == registered_actions(Ok(b))[i] || (registered_actions(
            Ok(a),
        )[i] is Show && registered_actions(Ok(b))[i] is Show),
{
}

/// A failed registration is shown with its error, whole; then the application
/// parks, and should it wake up, serving ends without an error.
pub proof fn law_failed_registration_parks(error: Seq<char>)
    ensures
        registered_actions(Err(error)).len() == 3,
        registered_actions(Err(error))[0] == StartupActionView::Show(
            "WebUSB: register interface failed: "@ + error,
        ),
        registered_actions(Err(error))[1] is Park,
        registered_actions(Err(error))[2] is Finish,
{
}

/// With the write buffer mapped the dispatcher serves; without it serving fails,
/// and the error is told whole.
pub proof fn law_dispatcher_serves_with_a_buffer(error: Seq<char>)
    ensures
        mapped_actions(None).len() == 1,
        mapped_actions(None)[0] is Serve,
        mapped_actions(Some(error)).len() == 1,
        mapped_actions(Some(error))[0] == StartupActionView::Fail(
            "webusb map write buf: "@ + error,
        ),
{
}

/// Everything that is done to come up, up to the point where the dispatcher
/// serves or serving has ended.
pub open spec fn bring_up(
    registration: Result<Endpoints, Seq<char>>,
    map_error: Option<Seq<char>>,
) -> Seq<StartupActionView> {
    if registration is Ok {
        start_actions() + registered_actions(registration) + mapped_actions(map_error)
    } else {
        start_actions() + registered_actions(registration)
    }
}

/// The dispatcher serves exactly if the interface was registered and the write
/// buffer was mapped. Whenever it does, that comes last, after the interface was
/// registered, the controller reset and the reader started, in this order.
pub proof fn law_serving_comes_after_reset_and_reader(
    registration: Result<Endpoints, Seq<char>>,
    map_error: Option<Seq<char>>,
)
    ensures
        ({
            let actions = bring_up(registration, map_error);
            &&& actions.last() is Serve <==> registration is Ok && map_error is None
            &&& forall|k: int|
                #![trigger actions[k]]
                0 <= k < actions.len() - 1 ==> !(actions[k] is Serve)
            &&& actions.last() is Serve ==> exists|register: int, reset: int, reader: int|
                #![trigger actions[register], actions[reset], actions[reader]]
                {
                    &&& 0 <= register < reset < reader < actions.len() - 1
                    &&& actions[register] is RegisterInterface
                    &&& actions[reset] is ResetController
                    &&& actions[reader] is StartReader
                }
        }),
{
    let actions = bring_up(registration, map_error);
    if actions.last() is Serve {
        assert(actions[2] is RegisterInterface && actions[4] is ResetController
            && actions[6] is StartReader);
    }
}

/// The view of actions loses nothing: as many, in the same order, with the same
/// contents.
pub proof fn law_action_views_are_faithful(actions: Seq<StartupAction>, i: int)
    requires
        0 <= i < actions.len(),
    ensures
        action_views(actions).len() == actions.len(),
        match actions[i] {
            StartupAction::Show(status) => action_views(actions)[i] == StartupActionView::Show(
                status@,
            ),
            StartupAction::RegisterInterface => action_views(actions)[i] is RegisterInterface,
            StartupAction::ResetController => action_views(actions)[i] is ResetController,
            StartupAction::StartReader => action_views(actions)[i] is StartReader,
            StartupAction::MapWriteBuffer => action_views(actions)[i] is MapWriteBuffer,
            StartupAction::Serve => action_views(actions)[i] is Serve,
            StartupAction::Park => action_views(actions)[i] is Park,
            StartupAction::Finish => action_views(actions)[i] is Finish,
            StartupAction::Fail(text) => action_views(actions)[i] == StartupActionView::Fail(text@),
        },
{
}

} // verus!
