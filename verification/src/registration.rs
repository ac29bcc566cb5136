//! What each provider registers with the in-vehicle digital twin service: one
//! entry per entity, naming the entity and the single endpoint at which the
//! provider serves it.

use vstd::prelude::*;
use crate::collections::texts_of;
use crate::constants::{digital_twin_operation, digital_twin_protocol};
use crate::registry::{EndpointInfo, EntityAccessInfo, any_satisfying, endpoint_satisfies, holds_text, is_first_satisfying};

verus! {

/// An entity as its model describes it.
pub struct EntityModel {
    pub name: String,
    pub id: String,
    pub description: String,
}

/// The URI of the managed subscribe extension.
pub const EXTENSION_URI: &'static str = "http://0.0.0.0:5010";

/// The context under which the managed subscribe extension hands out
/// subscription information.
pub const SUBSCRIPTION_INFO_CONTEXT: &'static str = "GetSubscriptionInfo";

/// The name under which the command provider registers its notification.
pub const SHOW_NOTIFICATION_NAME: &'static str = "ShowNotification";

/// The description under which the command provider registers its notification.
pub const SHOW_NOTIFICATION_DESCRIPTION: &'static str = "Show a notification on the HMI.";

/// `info` registers an entity with these texts, reachable at one endpoint.
pub open spec fn registers_entity(
    info: EntityAccessInfo,
    name: Seq<char>,
    id: Seq<char>,
    description: Seq<char>,
    protocol: Seq<char>,
    operations: Seq<Seq<char>>,
    uri: Seq<char>,
    context: Seq<char>,
) -> bool {
    &&& info.name@ == name
    &&& info.id@ == id
    &&& info.description@ == description
    &&& info.endpoint_info_list@.len() == 1
    &&& info.endpoint_info_list@[0].protocol@ == protocol
    &&& texts_of(info.endpoint_info_list@[0].operations@) == operations
    &&& info.endpoint_info_list@[0].uri@ == uri
    &&& info.endpoint_info_list@[0].context@ == context
}

/// `info` registers the modelled entity over gRPC at `uri`, with the entity's
/// id as the context.
pub open spec fn registers_grpc_entity(
    info: EntityAccessInfo,
    model: EntityModel,
    operations: Seq<Seq<char>>,
    uri: Seq<char>,
) -> bool {
    registers_entity(
        info,
        model.name@,
        model.id@,
        model.description@,
        digital_twin_protocol::GRPC@,
        operations,
        uri,
        model.id@,
    )
}

/// A list holding one operation.
fn operations1(a: &str) -> (r: Vec<String>)
    ensures
        texts_of(r@) == seq![a@],
{
    let mut r: Vec<String> = Vec::new();
    r.push(String::from_str(a));
    proof { assert(texts_of(r@) =~= seq![a@]); }
    r
}

/// A list holding two operations, in order.
fn operations2(a: &str, b: &str) -> (r: Vec<String>)
    ensures
        texts_of(r@) == seq![a@, b@],
{
    let mut r: Vec<String> = Vec::new();
    r.push(String::from_str(a));
    r.push(String::from_str(b));
    proof { assert(texts_of(r@) =~= seq![a@, b@]); }
    r
}

/// The registration of one entity, reachable at one endpoint.
///
/// # Arguments
/// * `name` - The entity's name.
/// * `id` - The entity's id.
/// * `description` - The entity's description.
/// * `protocol` - The endpoint's protocol.
/// * `operations` - The operations the endpoint supports.
/// * `uri` - The endpoint's URI.
/// * `context` - The endpoint's context.
pub fn entity_registration(
    name: &str,
    id: &str,
    description: &str,
    protocol: &str,
    operations: Vec<String>,
    uri: &str,
    context: &str,
) -> (r: EntityAccessInfo)
    ensures
        registers_entity(r, name@, id@, description@, protocol@, texts_of(operations@), uri@, context@),
{
    let endpoint_info = EndpointInfo {
        protocol: String::from_str(protocol),
        operations,
        uri: String::from_str(uri),
        context: String::from_str(context),
    };
    let mut endpoint_info_list = Vec::new();
    endpoint_info_list.push(endpoint_info);
    EntityAccessInfo {
        name: String::from_str(name),
        id: String::from_str(id),
        description: String::from_str(description),
        endpoint_info_list,
    }
}

/// The registration of a modelled entity over gRPC, with its id as context.
fn grpc_registration(model: &EntityModel, operations: Vec<String>, uri: &str) -> (r: EntityAccessInfo)
    ensures
        registers_grpc_entity(r, *model, texts_of(operations@), uri@),
{
    entity_registration(
        model.name.as_str(),
        model.id.as_str(),
        model.description.as_str(),
        digital_twin_protocol::GRPC,
        operations,
        uri,
        model.id.as_str(),
    )
}

/// The mixed provider's entities: the ambient air temperature and the hybrid
/// battery remaining can be subscribed to, whether the air conditioning is
/// active can be subscribed to and set, and the notification can be invoked.
///
/// # Arguments
/// * `ambient_air_temperature` - The ambient air temperature's model.
/// * `is_air_conditioning_active` - The air conditioning state's model.
/// * `hybrid_battery_remaining` - The hybrid battery's model.
/// * `show_notification` - The notification's model.
/// * `provider_uri` - The provider's URI.
pub fn mixed_registrations(
    ambient_air_temperature: &EntityModel,
    is_air_conditioning_active: &EntityModel,
    hybrid_battery_remaining: &EntityModel,
    show_notification: &EntityModel,
    provider_uri: &str,
) -> (r: Vec<EntityAccessInfo>)
    ensures
        r@.len() == 4,
        registers_grpc_entity(r@[0], *ambient_air_temperature, seq![digital_twin_operation::SUBSCRIBE@], provider_uri@),
        registers_grpc_entity(
            r@[1],
            *is_air_conditioning_active,
            seq![digital_twin_operation::SUBSCRIBE@, digital_twin_operation::SET@],
            provider_uri@,
        ),
        registers_grpc_entity(r@[2], *hybrid_battery_remaining, seq![digital_twin_operation::SUBSCRIBE@], provider_uri@),
        registers_grpc_entity(r@[3], *show_notification, seq![digital_twin_operation::INVOKE@], provider_uri@),
{
    let mut r: Vec<EntityAccessInfo> = Vec::new();
    r.push(grpc_registration(ambient_air_temperature, operations1(digital_twin_operation::SUBSCRIBE), provider_uri));
    r.push(grpc_registration(
        is_air_conditioning_active,
        operations2(digital_twin_operation::SUBSCRIBE, digital_twin_operation::SET),
        provider_uri,
    ));
    r.push(grpc_registration(hybrid_battery_remaining, operations1(digital_twin_operation::SUBSCRIBE), provider_uri));
    r.push(grpc_registration(show_notification, operations1(digital_twin_operation::INVOKE), provider_uri));
    r
}

/// The tutorial provider's entities: the ambient air temperature and whether
/// the air conditioning is active can be read, and the notification can be
/// invoked.
///
/// # Arguments
/// * `ambient_air_temperature` - The ambient air temperature's model.
/// * `is_air_conditioning_active` - The air conditioning state's model.
/// * `show_notification` - The notification's model.
/// * `provider_uri` - The provider's URI.
pub fn tutorial_registrations(
    ambient_air_temperature: &EntityModel,
    is_air_conditioning_active: &EntityModel,
    show_notification: &EntityModel,
    provider_uri: &str,
) -> (r: Vec<EntityAccessInfo>)
    ensures
        r@.len() == 3,
        registers_grpc_entity(r@[0], *ambient_air_temperature, seq![digital_twin_operation::GET@], provider_uri@),
        registers_grpc_entity(r@[1], *is_air_conditioning_active, seq![digital_twin_operation::GET@], provider_uri@),
        registers_grpc_entity(r@[2], *show_notification, seq![digital_twin_operation::INVOKE@], provider_uri@),
{
    let mut r: Vec<EntityAccessInfo> = Vec::new();
    r.push(grpc_registration(ambient_air_temperature, operations1(digital_twin_operation::GET), provider_uri));
    r.push(grpc_registration(is_air_conditioning_active, operations1(digital_twin_operation::GET), provider_uri));
    r.push(grpc_registration(show_notification, operations1(digital_twin_operation::INVOKE), provider_uri));
    r
}

/// The streaming provider's entity: the camera feed can be streamed.
///
/// # Arguments
/// * `camera_feed` - The camera feed's model.
/// * `provider_uri` - The provider's URI.
pub fn camera_feed_registration(camera_feed: &EntityModel, provider_uri: &str) -> (r: EntityAccessInfo)
    ensures
        registers_grpc_entity(r, *camera_feed, seq![digital_twin_operation::STREAM@], provider_uri@),
{
    grpc_registration(camera_feed, operations1(digital_twin_operation::STREAM), provider_uri)
}

/// The command provider's entity: the notification, which can be invoked.
///
/// # Arguments
/// * `show_notification_id` - The notification's id.
/// * `provider_uri` - The provider's URI.
pub fn show_notification_registration(show_notification_id: &str, provider_uri: &str) -> (r: EntityAccessInfo)
    ensures
        registers_entity(
            r,
            SHOW_NOTIFICATION_NAME@,
            show_notification_id@,
            SHOW_NOTIFICATION_DESCRIPTION@,
            digital_twin_protocol::GRPC@,
            seq![digital_twin_operation::INVOKE@],
            provider_uri@,
            show_notification_id@,
        ),
{
    entity_registration(
        SHOW_NOTIFICATION_NAME,
        show_notification_id,
        SHOW_NOTIFICATION_DESCRIPTION,
        digital_twin_protocol::GRPC,
        operations1(digital_twin_operation::INVOKE),
        provider_uri,
        show_notification_id,
    )
}

/// The property provider's entity: the ambient air temperature, which can be
/// subscribed to over MQTT at the broker, on the topic.
///
/// # Arguments
/// * `ambient_air_temperature` - The ambient air temperature's model.
/// * `broker_uri` - The broker's URI.
/// * `topic` - The topic.
pub fn mqtt_ambient_air_temperature_registration(
    ambient_air_temperature: &EntityModel,
    broker_uri: &str,
    topic: &str,
) -> (r: EntityAccessInfo)
    ensures
        registers_entity(
            r,
            ambient_air_temperature.name@,
            ambient_air_temperature.id@,
            ambient_air_temperature.description@,
            digital_twin_protocol::MQTT@,
            seq![digital_twin_operation::SUBSCRIBE@],
            broker_uri@,
            topic@,
        ),
{
    entity_registration(
        ambient_air_temperature.name.as_str(),
        ambient_air_temperature.id.as_str(),
        ambient_air_temperature.description.as_str(),
        digital_twin_protocol::MQTT,
        operations1(digital_twin_operation::SUBSCRIBE),
        broker_uri,
        topic,
    )
}

/// The managed subscribe provider's entity: the ambient air temperature, whose
/// subscription information the extension hands out.
///
/// # Arguments
/// * `ambient_air_temperature` - The ambient air temperature's model.
pub fn managed_ambient_air_temperature_registration(ambient_air_temperature: &EntityModel) -> (r: EntityAccessInfo)
    ensures
        registers_entity(
            r,
            ambient_air_temperature.name@,
            ambient_air_temperature.id@,
            ambient_air_temperature.description@,
            digital_twin_protocol::GRPC@,
            seq![digital_twin_operation::MANAGEDSUBSCRIBE@],
            EXTENSION_URI@,
            SUBSCRIPTION_INFO_CONTEXT@,
        ),
{
    entity_registration(
        ambient_air_temperature.name.as_str(),
        ambient_air_temperature.id.as_str(),
        ambient_air_temperature.description.as_str(),
        digital_twin_protocol::GRPC,
        operations1(digital_twin_operation::MANAGEDSUBSCRIBE),
        EXTENSION_URI,
        SUBSCRIPTION_INFO_CONTEXT,
    )
}

/// The seat massager provider's entity: the premium airbag seat massager,
/// registered without a name, which can be read and invoked.
///
/// # Arguments
/// * `massager_id` - The massager's id.
/// * `massager_description` - The massager's description.
/// * `provider_uri` - The provider's URI.
pub fn airbag_massager_registration(massager_id: &str, massager_description: &str, provider_uri: &str) -> (r: EntityAccessInfo)
    ensures
        registers_entity(
            r,
            Seq::<char>::empty(),
            massager_id@,
            massager_description@,
            digital_twin_protocol::GRPC@,
            seq![digital_twin_operation::GET@, digital_twin_operation::INVOKE@],
            provider_uri@,
            massager_id@,
        ),
{
    proof {
        reveal_strlit("");
        assert(""@ =~= Seq::<char>::empty());
    }
    entity_registration(
        "",
        massager_id,
        massager_description,
        digital_twin_protocol::GRPC,
        operations2(digital_twin_operation::GET, digital_twin_operation::INVOKE),
        provider_uri,
        massager_id,
    )
}

/// A consumer that asks for a registered entity with the registration's
/// protocol and some of its operations is handed the one registered
/// endpoint, with its URI and context.
pub proof fn lemma_registration_is_discoverable(
    info: EntityAccessInfo,
    name: Seq<char>,
    id: Seq<char>,
    description: Seq<char>,
    protocol: Seq<char>,
    operations: Seq<Seq<char>>,
    uri: Seq<char>,
    context: Seq<char>,
    wanted: Seq<String>,
)
    requires
        registers_entity(info, name, id, description, protocol, operations, uri, context),
        forall|i: int| 0 <= i < wanted.len() ==> operations.contains(#[trigger] wanted[i]@),
    ensures
        any_satisfying(info.endpoint_info_list@, protocol, wanted),
        is_first_satisfying(info.endpoint_info_list@, 0, protocol, wanted),
        info.endpoint_info_list@[0].uri@ == uri,
        info.endpoint_info_list@[0].context@ == context,
{
    let endpoint = info.endpoint_info_list@[0];
    assert forall|i: int| 0 <= i < wanted.len() implies holds_text(endpoint.operations@, #[trigger] wanted[i]@) by {
        assert(operations.contains(wanted[i]@));
        let j = choose|j: int| 0 <= j < operations.len() && operations[j] == wanted[i]@;
        assert(texts_of(endpoint.operations@)[j] == endpoint.operations@[j]@);
    }
    assert(endpoint_satisfies(endpoint, protocol, wanted));
}

} // verus!
