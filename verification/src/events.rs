//! Deferred effects.
//!
//! Behaviours may not reach into the engine while it walks its entities.
//! What they want done to the scene they send as an [`EngineEvent`]; the
//! engine applies the queued events, oldest first, once per frame. The queue
//! is a bounded `kanal` channel.

use vstd::prelude::*;
use crate::audio::basic::AudioSource;
use crate::audio::basic::AudioSourceModel;
use crate::game_object::behaviours::EngineView;
use crate::game_object::GameObject;
use crate::physics::ColliderHandle;
use crate::ui::frontend::errors::UiError;

verus! {

#[verifier::external_type_specification]
#[verifier::external_body]
#[verifier::reject_recursive_types(T)]
pub struct ExSender<T>(kanal::Sender<T>);

#[verifier::external_type_specification]
#[verifier::external_body]
#[verifier::reject_recursive_types(T)]
pub struct ExReceiver<T>(kanal::Receiver<T>);

#[verifier::external_type_specification]
pub struct ExSendError(kanal::SendError);

#[verifier::external_type_specification]
pub struct ExReceiveError(kanal::ReceiveError);

/// `kanal::bounded`: the two ends of a new channel that queues up to `size`
/// values.
pub assume_specification<T>[ kanal::bounded::<T> ](size: usize) -> (ends: (
    kanal::Sender<T>,
    kanal::Receiver<T>,
));

/// `kanal::Sender::try_send_option`: tries to queue the value in `data`
/// without waiting. On `Ok(true)` the value was taken; otherwise (queue full,
/// or channel closed) it is still in `data`. The call panics on an empty
/// `data`, which the precondition rules out.
pub assume_specification<T>[ kanal::Sender::<T>::try_send_option ](
    sender: &kanal::Sender<T>,
    data: &mut Option<T>,
) -> (sent: Result<bool, kanal::SendError>)
    requires
        old(data).is_some(),
    ensures
        sent == Ok::<bool, kanal::SendError>(true) ==> final(data).is_none(),
        sent != Ok::<bool, kanal::SendError>(true) ==> *final(data) == *old(data),
;

/// `kanal::Receiver::try_recv`: takes the oldest queued value, if there is
/// one, without waiting.
pub assume_specification<T>[ kanal::Receiver::<T>::try_recv ](receiver: &kanal::Receiver<T>) -> (
    received: Result<Option<T>, kanal::ReceiveError>
);

/// `kanal::Receiver::len`: the number of values queued at the moment.
pub assume_specification<T>[ kanal::Receiver::<T>::len ](receiver: &kanal::Receiver<T>) -> (queued:
    usize);

/// What can go wrong in the engine core.
#[derive(Clone, Copy, Debug, PartialEq, Eq, Structural)]
pub enum EngineError {
    /// A switch to a scene that was never registered.
    MissingScene,
    /// A physics handle that is stale or belongs to another scene.
    MissingHandle,
    /// The event queue is closed: the engine has shut down.
    ChannelClosed,
    /// A scene asset could not be parsed.
    MalformedSceneAsset(UiError),
    /// An event needs an active scene and there is none.
    NoActiveScene,
    /// A value was set for a data-map key that was never inserted.
    MissingDataKey,
    /// A coordinate that is infinite or not a number.
    NotFinite,
}

/// A request to be shown the entity that owns a collider.
pub struct PullGameObjectRequest<C> {
    pub collider_handle: ColliderHandle,
    pub callback: C,
}

pub enum EngineEvent<C> {
    SwitchToScene(String),
    SetDatamapValue((String, String)),
    InsertDatamapValue((String, String)),
    RemoveDatamapValue(String),
    PlaySound(AudioSource),
    PullGameObject(PullGameObjectRequest<C>),
    UserEvent(Vec<u8>),
}

/// What runs when a [`PullGameObjectRequest`] is answered.
pub trait PullCallback<B>: Sized {
    fn call(&self, engine_view: EngineView<Self>, game_object: &GameObject<B>);
}

/// Mathematical value of an [`EngineEvent`]. The callback of a pull request
/// is code and stands for itself.
pub enum EventModel<C> {
    SwitchToScene(Seq<char>),
    SetDatamapValue(Seq<char>, Seq<char>),
    InsertDatamapValue(Seq<char>, Seq<char>),
    RemoveDatamapValue(Seq<char>),
    PlaySound(AudioSourceModel),
    PullGameObject(ColliderHandle, C),
    UserEvent(Seq<u8>),
}

impl<C> View for EngineEvent<C> {
    type V = EventModel<C>;

    open spec fn view(&self) -> EventModel<C> {
        match *self {
            EngineEvent::SwitchToScene(name) => EventModel::SwitchToScene(name@),
            EngineEvent::SetDatamapValue(pair) => EventModel::SetDatamapValue(pair.0@, pair.1@),
            EngineEvent::InsertDatamapValue(pair) => EventModel::InsertDatamapValue(
                pair.0@,
                pair.1@,
            ),
            EngineEvent::RemoveDatamapValue(key) => EventModel::RemoveDatamapValue(key@),
            EngineEvent::PlaySound(source) => EventModel::PlaySound(source@),
            EngineEvent::PullGameObject(request) => EventModel::PullGameObject(
                request.collider_handle,
                request.callback,
            ),
            EngineEvent::UserEvent(bytes) => EventModel::UserEvent(bytes@),
        }
    }
}

/// What the sender of an event is told, given what the queue answered and
/// what it left in the slot that held the event.
pub open spec fn delivery<C>(sent: Result<bool, kanal::SendError>, slot: Option<EngineEvent<C>>) -> Result<
    Option<EngineEvent<C>>,
    EngineError,
> {
    match sent {
        Ok(accepted) => if accepted {
            Ok(None)
        } else {
            Ok(slot)
        },
        Err(_) => Err(EngineError::ChannelClosed),
    }
}

/// Turns the answer of the queue into what the sender is told: `Ok(None)`
/// when the event was taken, the event back when the queue was full, and
/// `ChannelClosed` when the queue is closed on either side.
pub fn send_outcome<C>(sent: Result<bool, kanal::SendError>, slot: Option<EngineEvent<C>>) -> (outcome:
    Result<Option<EngineEvent<C>>, EngineError>)
    ensures
        outcome == delivery(sent, slot),
{
    match sent {
        Ok(true) => Ok(None),
        Ok(false) => Ok(slot),
        Err(_) => Err(EngineError::ChannelClosed),
    }
}

/// What an event does to the data map of the active scene. Setting a value
/// needs the key to be there; inserting does not.
pub open spec fn data_after<C>(data: Map<Seq<char>, Seq<char>>, event: EventModel<C>) -> Map<
    Seq<char>,
    Seq<char>,
> {
    match event {
        EventModel::SetDatamapValue(key, value) => if data.contains_key(key) {
            data.insert(key, value)
        } else {
            data
        },
        EventModel::InsertDatamapValue(key, value) => data.insert(key, value),
        EventModel::RemoveDatamapValue(key) => data.remove(key),
        _ => data,
    }
}

/// What a run of events does to the data map, applied oldest first.
pub open spec fn data_after_all<C>(data: Map<Seq<char>, Seq<char>>, events: Seq<EventModel<C>>) -> Map<
    Seq<char>,
    Seq<char>,
>
    decreases events.len(),
{
    if events.len() == 0 {
        data
    } else {
        data_after(data_after_all(data, events.drop_last()), events.last())
    }
}

/// Last write wins: after two values were set for the same key, one after
/// the other, the map holds the second.
pub proof fn lemma_last_write_wins<C>(
    data: Map<Seq<char>, Seq<char>>,
    key: Seq<char>,
    first: Seq<char>,
    second: Seq<char>,
)
    requires
        data.contains_key(key),
    ensures
        data_after_all(
            data,
            seq![
                EventModel::<C>::SetDatamapValue(key, first),
                EventModel::<C>::SetDatamapValue(key, second),
            ],
        ) == data.insert(key, second),
{
    let events = seq![
        EventModel::<C>::SetDatamapValue(key, first),
        EventModel::<C>::SetDatamapValue(key, second),
    ];
    let one = events.drop_last();
    assert(one.drop_last().len() == 0);
    assert(data_after_all(data, one.drop_last()) == data);
    assert(one.last() == EventModel::<C>::SetDatamapValue(key, first));
    assert(data_after_all(data, one) == data.insert(key, first));
    assert(data.insert(key, first).insert(key, second) =~= data.insert(key, second));
}

/// Whatever was queued before, the value a key holds after a run of events
/// is the one of the last event that set or inserted it, provided no later
/// event removed it.
pub proof fn lemma_latest_value_stands<C>(
    data: Map<Seq<char>, Seq<char>>,
    events: Seq<EventModel<C>>,
    at: int,
    key: Seq<char>,
    value: Seq<char>,
)
    requires
        0 <= at < events.len(),
        events[at] == EventModel::<C>::InsertDatamapValue(key, value) || (events[at]
            == EventModel::<C>::SetDatamapValue(key, value) && data_after_all(
            data,
            events.take(at),
        ).contains_key(key)),
        forall|later: int|
            at < later < events.len() ==> !(#[trigger] events[later] matches EventModel::SetDatamapValue(
                k,
                _,
            ) && k == key) && !(events[later] matches EventModel::InsertDatamapValue(k, _) && k
                == key) && !(events[later] matches EventModel::RemoveDatamapValue(k) && k == key),
    ensures
        data_after_all(data, events).contains_key(key),
        data_after_all(data, events)[key] == value,
    decreases events.len() - at,
{
    if at == events.len() - 1 {
        assert(events.drop_last() =~= events.take(at));
        assert(events.last() == events[at]);
    } else {
        let shorter = events.drop_last();
        assert(shorter[at] == events[at]);
        assert(shorter.take(at) =~= events.take(at));
        assert forall|later: int| at < later < shorter.len() implies !(
        #[trigger] shorter[later] matches EventModel::SetDatamapValue(k, _) && k == key) && !(
        shorter[later] matches EventModel::InsertDatamapValue(k, _) && k == key) && !(
        shorter[later] matches EventModel::RemoveDatamapValue(k) && k == key) by {
            assert(shorter[later] == events[later]);
        }
        lemma_latest_value_stands(data, shorter, at, key, value);
        assert(events.last() == events[events.len() - 1]);
    }
}

impl<C> PullGameObjectRequest<C> {
    pub fn new(collider_handle: ColliderHandle, callback: C) -> (request: PullGameObjectRequest<C>)
        ensures
            request.collider_handle == collider_handle,
            request.callback == callback,
    {
        PullGameObjectRequest { collider_handle, callback }
    }
}

} // verus!
