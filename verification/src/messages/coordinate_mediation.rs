//! The messages of the coordinate-mediation protocol.

use vstd::prelude::*;
use crate::messages::DecoratorsModel;
use crate::messages::MsgParts;
use crate::messages::MsgPartsModel;

verus! {

/// A request for mediation carries nothing beyond its id.
pub struct MediateRequestContent {}

impl DeepView for MediateRequestContent {
    type V = MediateRequestContent;

    open spec fn deep_view(&self) -> MediateRequestContent {
        *self
    }
}

/// A denial carries nothing beyond its id.
pub struct MediateDenyContent {}

impl DeepView for MediateDenyContent {
    type V = MediateDenyContent;

    open spec fn deep_view(&self) -> MediateDenyContent {
        *self
    }
}

/// What a grant tells the client: where to send, and through which keys.
pub struct MediateGrantContent {
    pub endpoint: String,
    pub routing_keys: Vec<String>,
}

pub struct MediateGrantContentModel {
    pub endpoint: Seq<char>,
    pub routing_keys: Seq<Seq<char>>,
}

impl DeepView for MediateGrantContent {
    type V = MediateGrantContentModel;

    open spec fn deep_view(&self) -> MediateGrantContentModel {
        MediateGrantContentModel {
            endpoint: self.endpoint@,
            routing_keys: self.routing_keys.deep_view(),
        }
    }
}

/// What a keylist update asks for one recipient key.
#[derive(Clone, Copy, Debug)]
pub enum KeylistUpdateItemAction {
    Add,
    Remove,
}

impl DeepView for KeylistUpdateItemAction {
    type V = KeylistUpdateItemAction;

    open spec fn deep_view(&self) -> KeylistUpdateItemAction {
        *self
    }
}

/// One entry of a keylist update.
pub struct KeylistUpdateItem {
    pub recipient_key: String,
    pub action: KeylistUpdateItemAction,
}

pub struct KeylistUpdateItemModel {
    pub recipient_key: Seq<char>,
    pub action: KeylistUpdateItemAction,
}

impl DeepView for KeylistUpdateItem {
    type V = KeylistUpdateItemModel;

    open spec fn deep_view(&self) -> KeylistUpdateItemModel {
        KeylistUpdateItemModel { recipient_key: self.recipient_key@, action: self.action }
    }
}

pub struct KeylistUpdateContent {
    pub updates: Vec<KeylistUpdateItem>,
}

pub struct KeylistUpdateContentModel {
    pub updates: Seq<KeylistUpdateItemModel>,
}

impl DeepView for KeylistUpdateContent {
    type V = KeylistUpdateContentModel;

    open spec fn deep_view(&self) -> KeylistUpdateContentModel {
        KeylistUpdateContentModel { updates: self.updates.deep_view() }
    }
}

/// How one entry of a keylist update fared. The mediator itself reports
/// `Success` or `ServerError`; the other two are part of the protocol.
#[derive(Clone, Copy, Debug)]
pub enum KeylistUpdateItemResult {
    ClientError,
    ServerError,
    NoChange,
    Success,
}

impl DeepView for KeylistUpdateItemResult {
    type V = KeylistUpdateItemResult;

    open spec fn deep_view(&self) -> KeylistUpdateItemResult {
        *self
    }
}

/// One entry of the answer to a keylist update.
pub struct KeylistUpdateResponseItem {
    pub recipient_key: String,
    pub action: KeylistUpdateItemAction,
    pub result: KeylistUpdateItemResult,
}

pub struct KeylistUpdateResponseItemModel {
    pub recipient_key: Seq<char>,
    pub action: KeylistUpdateItemAction,
    pub result: KeylistUpdateItemResult,
}

impl DeepView for KeylistUpdateResponseItem {
    type V = KeylistUpdateResponseItemModel;

    open spec fn deep_view(&self) -> KeylistUpdateResponseItemModel {
        KeylistUpdateResponseItemModel {
            recipient_key: self.recipient_key@,
            action: self.action,
            result: self.result,
        }
    }
}

pub struct KeylistUpdateResponseContent {
    pub updated: Vec<KeylistUpdateResponseItem>,
}

pub struct KeylistUpdateResponseContentModel {
    pub updated: Seq<KeylistUpdateResponseItemModel>,
}

impl DeepView for KeylistUpdateResponseContent {
    type V = KeylistUpdateResponseContentModel;

    open spec fn deep_view(&self) -> KeylistUpdateResponseContentModel {
        KeylistUpdateResponseContentModel { updated: self.updated.deep_view() }
    }
}

/// The paging a keylist query may ask for.
#[derive(Clone, Copy, Debug)]
pub struct KeylistQueryPaginateParams {
    pub limit: u32,
    pub offset: u32,
}

impl DeepView for KeylistQueryPaginateParams {
    type V = KeylistQueryPaginateParams;

    open spec fn deep_view(&self) -> KeylistQueryPaginateParams {
        *self
    }
}

pub struct KeylistQueryContent {
    pub paginate: Option<KeylistQueryPaginateParams>,
}

impl DeepView for KeylistQueryContent {
    type V = KeylistQueryContent;

    open spec fn deep_view(&self) -> KeylistQueryContent {
        *self
    }
}

/// One registered recipient key.
pub struct KeylistItem {
    pub recipient_key: String,
}

pub struct KeylistItemModel {
    pub recipient_key: Seq<char>,
}

impl DeepView for KeylistItem {
    type V = KeylistItemModel;

    open spec fn deep_view(&self) -> KeylistItemModel {
        KeylistItemModel { recipient_key: self.recipient_key@ }
    }
}

/// The paging a keylist may report.
#[derive(Clone, Copy, Debug)]
pub struct KeylistPagination {
    pub count: u32,
    pub offset: u32,
    pub remaining: u32,
}

impl DeepView for KeylistPagination {
    type V = KeylistPagination;

    open spec fn deep_view(&self) -> KeylistPagination {
        *self
    }
}

pub struct KeylistContent {
    pub keys: Vec<KeylistItem>,
    pub pagination: Option<KeylistPagination>,
}

pub struct KeylistContentModel {
    pub keys: Seq<KeylistItemModel>,
    pub pagination: Option<KeylistPagination>,
}

impl DeepView for KeylistContent {
    type V = KeylistContentModel;

    open spec fn deep_view(&self) -> KeylistContentModel {
        KeylistContentModel { keys: self.keys.deep_view(), pagination: self.pagination }
    }
}

pub type MediateRequest = MsgParts<MediateRequestContent>;

pub type MediateDeny = MsgParts<MediateDenyContent>;

pub type MediateGrant = MsgParts<MediateGrantContent>;

pub type KeylistUpdate = MsgParts<KeylistUpdateContent>;

pub type KeylistUpdateResponse = MsgParts<KeylistUpdateResponseContent>;

pub type KeylistQuery = MsgParts<KeylistQueryContent>;

pub type Keylist = MsgParts<KeylistContent>;

/// A message of the coordinate-mediation protocol.
pub enum CoordinateMediation {
    MediateRequest(MediateRequest),
    MediateDeny(MediateDeny),
    MediateGrant(MediateGrant),
    KeylistUpdate(KeylistUpdate),
    KeylistUpdateResponse(KeylistUpdateResponse),
    KeylistQuery(KeylistQuery),
    Keylist(Keylist),
}

pub enum CoordinateMediationModel {
    MediateRequest(MsgPartsModel<MediateRequestContent>),
    MediateDeny(MsgPartsModel<MediateDenyContent>),
    MediateGrant(MsgPartsModel<MediateGrantContentModel>),
    KeylistUpdate(MsgPartsModel<KeylistUpdateContentModel>),
    KeylistUpdateResponse(MsgPartsModel<KeylistUpdateResponseContentModel>),
    KeylistQuery(MsgPartsModel<KeylistQueryContent>),
    Keylist(MsgPartsModel<KeylistContentModel>),
}

impl DeepView for CoordinateMediation {
    type V = CoordinateMediationModel;

    open spec fn deep_view(&self) -> CoordinateMediationModel {
        match self {
            CoordinateMediation::MediateRequest(m) => CoordinateMediationModel::MediateRequest(
                m.deep_view(),
            ),
            CoordinateMediation::MediateDeny(m) => CoordinateMediationModel::MediateDeny(
                m.deep_view(),
            ),
            CoordinateMediation::MediateGrant(m) => CoordinateMediationModel::MediateGrant(
                m.deep_view(),
            ),
            CoordinateMediation::KeylistUpdate(m) => CoordinateMediationModel::KeylistUpdate(
                m.deep_view(),
            ),
            CoordinateMediation::KeylistUpdateResponse(m) => {
                CoordinateMediationModel::KeylistUpdateResponse(m.deep_view())
            },
            CoordinateMediation::KeylistQuery(m) => CoordinateMediationModel::KeylistQuery(
                m.deep_view(),
            ),
            CoordinateMediation::Keylist(m) => CoordinateMediationModel::Keylist(m.deep_view()),
        }
    }
}

impl CoordinateMediation {
    /// The `@id` of the message, whatever its kind.
    pub fn message_id(&self) -> (id: &String)
        ensures
            id@ == self.id(),
    {
        match self {
            CoordinateMediation::MediateRequest(m) => &m.id,
            CoordinateMediation::MediateDeny(m) => &m.id,
            CoordinateMediation::MediateGrant(m) => &m.id,
            CoordinateMediation::KeylistUpdate(m) => &m.id,
            CoordinateMediation::KeylistUpdateResponse(m) => &m.id,
            CoordinateMediation::KeylistQuery(m) => &m.id,
            CoordinateMediation::Keylist(m) => &m.id,
        }
    }

    /// The decorators of the message, whatever its kind.
    pub open spec fn decorators(&self) -> DecoratorsModel {
        match self {
            CoordinateMediation::MediateRequest(m) => m.decorators.deep_view(),
            CoordinateMediation::MediateDeny(m) => m.decorators.deep_view(),
            CoordinateMediation::MediateGrant(m) => m.decorators.deep_view(),
            CoordinateMediation::KeylistUpdate(m) => m.decorators.deep_view(),
            CoordinateMediation::KeylistUpdateResponse(m) => m.decorators.deep_view(),
            CoordinateMediation::KeylistQuery(m) => m.decorators.deep_view(),
            CoordinateMediation::Keylist(m) => m.decorators.deep_view(),
        }
    }

    /// The `@id` of the message, whatever its kind.
    pub open spec fn id(&self) -> Seq<char> {
        match self {
            CoordinateMediation::MediateRequest(m) => m.id@,
            CoordinateMediation::MediateDeny(m) => m.id@,
            CoordinateMediation::MediateGrant(m) => m.id@,
            CoordinateMediation::KeylistUpdate(m) => m.id@,
            CoordinateMediation::KeylistUpdateResponse(m) => m.id@,
            CoordinateMediation::KeylistQuery(m) => m.id@,
            CoordinateMediation::Keylist(m) => m.id@,
        }
    }
}

} // verus!
