//! The messages of the pickup protocol.

use vstd::prelude::*;
use crate::messages::DecoratorsModel;
use crate::messages::MsgParts;
use crate::messages::MsgPartsModel;

verus! {

pub struct StatusRequestContent {
    pub recipient_key: Option<String>,
}

pub struct StatusRequestContentModel {
    pub recipient_key: Option<Seq<char>>,
}

impl DeepView for StatusRequestContent {
    type V = StatusRequestContentModel;

    open spec fn deep_view(&self) -> StatusRequestContentModel {
        StatusRequestContentModel { recipient_key: self.recipient_key.deep_view() }
    }
}

pub struct StatusContent {
    pub recipient_key: Option<String>,
    pub message_count: u64,
}

pub struct StatusContentModel {
    pub recipient_key: Option<Seq<char>>,
    pub message_count: u64,
}

impl DeepView for StatusContent {
    type V = StatusContentModel;

    open spec fn deep_view(&self) -> StatusContentModel {
        StatusContentModel {
            recipient_key: self.recipient_key.deep_view(),
            message_count: self.message_count,
        }
    }
}

pub struct DeliveryRequestContent {
    pub limit: u32,
    pub recipient_key: Option<String>,
}

pub struct DeliveryRequestContentModel {
    pub limit: u32,
    pub recipient_key: Option<Seq<char>>,
}

impl DeepView for DeliveryRequestContent {
    type V = DeliveryRequestContentModel;

    open spec fn deep_view(&self) -> DeliveryRequestContentModel {
        DeliveryRequestContentModel {
            limit: self.limit,
            recipient_key: self.recipient_key.deep_view(),
        }
    }
}

/// What an attachment holds.
pub enum AttachmentType {
    /// The payload as base64url text.
    Base64(String),
    /// The payload as JSON text.
    Json(String),
}

pub enum AttachmentTypeModel {
    Base64(Seq<char>),
    Json(Seq<char>),
}

impl DeepView for AttachmentType {
    type V = AttachmentTypeModel;

    open spec fn deep_view(&self) -> AttachmentTypeModel {
        match self {
            AttachmentType::Base64(text) => AttachmentTypeModel::Base64(text@),
            AttachmentType::Json(text) => AttachmentTypeModel::Json(text@),
        }
    }
}

pub struct AttachmentData {
    pub content: AttachmentType,
}

pub struct AttachmentDataModel {
    pub content: AttachmentTypeModel,
}

impl DeepView for AttachmentData {
    type V = AttachmentDataModel;

    open spec fn deep_view(&self) -> AttachmentDataModel {
        AttachmentDataModel { content: self.content.deep_view() }
    }
}

/// One attached message of a delivery.
pub struct Attachment {
    pub id: Option<String>,
    pub data: AttachmentData,
}

pub struct AttachmentModel {
    pub id: Option<Seq<char>>,
    pub data: AttachmentDataModel,
}

impl DeepView for Attachment {
    type V = AttachmentModel;

    open spec fn deep_view(&self) -> AttachmentModel {
        AttachmentModel { id: self.id.deep_view(), data: self.data.deep_view() }
    }
}

pub struct DeliveryContent {
    pub recipient_key: Option<String>,
    pub attach: Vec<Attachment>,
}

pub struct DeliveryContentModel {
    pub recipient_key: Option<Seq<char>>,
    pub attach: Seq<AttachmentModel>,
}

impl DeepView for DeliveryContent {
    type V = DeliveryContentModel;

    open spec fn deep_view(&self) -> DeliveryContentModel {
        DeliveryContentModel {
            recipient_key: self.recipient_key.deep_view(),
            attach: self.attach.deep_view(),
        }
    }
}

pub struct MessagesReceivedContent {
    pub message_id_list: Vec<String>,
}

pub struct MessagesReceivedContentModel {
    pub message_id_list: Seq<Seq<char>>,
}

impl DeepView for MessagesReceivedContent {
    type V = MessagesReceivedContentModel;

    open spec fn deep_view(&self) -> MessagesReceivedContentModel {
        MessagesReceivedContentModel { message_id_list: self.message_id_list.deep_view() }
    }
}

pub struct LiveDeliveryChangeContent {
    pub live_delivery: bool,
}

impl DeepView for LiveDeliveryChangeContent {
    type V = LiveDeliveryChangeContent;

    open spec fn deep_view(&self) -> LiveDeliveryChangeContent {
        *self
    }
}

pub type StatusRequest = MsgParts<StatusRequestContent>;

pub type Status = MsgParts<StatusContent>;

pub type DeliveryRequest = MsgParts<DeliveryRequestContent>;

pub type Delivery = MsgParts<DeliveryContent>;

pub type MessagesReceived = MsgParts<MessagesReceivedContent>;

pub type LiveDeliveryChange = MsgParts<LiveDeliveryChangeContent>;

/// A message of the pickup protocol.
pub enum Pickup {
    Status(Status),
    StatusRequest(StatusRequest),
    DeliveryRequest(DeliveryRequest),
    Delivery(Delivery),
    MessagesReceived(MessagesReceived),
    LiveDeliveryChange(LiveDeliveryChange),
}

pub enum PickupModel {
    Status(MsgPartsModel<StatusContentModel>),
    StatusRequest(MsgPartsModel<StatusRequestContentModel>),
    DeliveryRequest(MsgPartsModel<DeliveryRequestContentModel>),
    Delivery(MsgPartsModel<DeliveryContentModel>),
    MessagesReceived(MsgPartsModel<MessagesReceivedContentModel>),
    LiveDeliveryChange(MsgPartsModel<LiveDeliveryChangeContent>),
}

impl DeepView for Pickup {
    type V = PickupModel;

    open spec fn deep_view(&self) -> PickupModel {
        match self {
            Pickup::Status(m) => PickupModel::Status(m.deep_view()),
            Pickup::StatusRequest(m) => PickupModel::StatusRequest(m.deep_view()),
            Pickup::DeliveryRequest(m) => PickupModel::DeliveryRequest(m.deep_view()),
            Pickup::Delivery(m) => PickupModel::Delivery(m.deep_view()),
            Pickup::MessagesReceived(m) => PickupModel::MessagesReceived(m.deep_view()),
            Pickup::LiveDeliveryChange(m) => PickupModel::LiveDeliveryChange(m.deep_view()),
        }
    }
}

impl Pickup {
    /// The `@id` of the message, whatever its kind.
    pub fn message_id(&self) -> (id: &String)
        ensures
            id@ == self.id(),
    {
        match self {
            Pickup::Status(m) => &m.id,
            Pickup::StatusRequest(m) => &m.id,
            Pickup::DeliveryRequest(m) => &m.id,
            Pickup::Delivery(m) => &m.id,
            Pickup::MessagesReceived(m) => &m.id,
            Pickup::LiveDeliveryChange(m) => &m.id,
        }
    }

    /// The decorators of the message, whatever its kind.
    pub open spec fn decorators(&self) -> DecoratorsModel {
        match self {
            Pickup::Status(m) => m.decorators.deep_view(),
            Pickup::StatusRequest(m) => m.decorators.deep_view(),
            Pickup::DeliveryRequest(m) => m.decorators.deep_view(),
            Pickup::Delivery(m) => m.decorators.deep_view(),
            Pickup::MessagesReceived(m) => m.decorators.deep_view(),
            Pickup::LiveDeliveryChange(m) => m.decorators.deep_view(),
        }
    }

    /// The `@id` of the message, whatever its kind.
    pub open spec fn id(&self) -> Seq<char> {
        match self {
            Pickup::Status(m) => m.id@,
            Pickup::StatusRequest(m) => m.id@,
            Pickup::DeliveryRequest(m) => m.id@,
            Pickup::Delivery(m) => m.id@,
            Pickup::MessagesReceived(m) => m.id@,
            Pickup::LiveDeliveryChange(m) => m.id@,
        }
    }
}

} // verus!
