//! The protocol sum type routed by a server, with the payload carried by each
//! variant.  Addresses, agent identifiers, request identifiers, attributes and
//! content are opaque byte strings; every payload is viewed as the tuple of
//! the byte sequences it holds.

use vstd::prelude::*;
use crate::ids::clone_bytes;

verus! {

/// Payload of a relayed result: `SuccessResult`.
pub struct ResultData {
    pub dna_address: Vec<u8>,
    pub request_id: Vec<u8>,
    pub to_agent_id: Vec<u8>,
    pub result_info: Vec<u8>,
}

#[verifier::ext_equal]
pub struct ResultDataView {
    pub dna_address: Seq<u8>,
    pub request_id: Seq<u8>,
    pub to_agent_id: Seq<u8>,
    pub result_info: Seq<u8>,
}

impl View for ResultData {
    type V = ResultDataView;

    open spec fn view(&self) -> ResultDataView {
        ResultDataView {
            dna_address: self.dna_address@,
            request_id: self.request_id@,
            to_agent_id: self.to_agent_id@,
            result_info: self.result_info@,
        }
    }
}

impl Clone for ResultData {
    fn clone(&self) -> (r: Self)
        ensures
            r@ == self@,
    {
        ResultData {
            dna_address: clone_bytes(&self.dna_address),
            request_id: clone_bytes(&self.request_id),
            to_agent_id: clone_bytes(&self.to_agent_id),
            result_info: clone_bytes(&self.result_info),
        }
    }
}

/// Payload of a failure: either relayed to its addressee or fabricated by the
/// server when a fetch finds no peer.
pub struct FailureResultData {
    pub dna_address: Vec<u8>,
    pub request_id: Vec<u8>,
    pub to_agent_id: Vec<u8>,
    pub error_info: Vec<u8>,
}

#[verifier::ext_equal]
pub struct FailureResultDataView {
    pub dna_address: Seq<u8>,
    pub request_id: Seq<u8>,
    pub to_agent_id: Seq<u8>,
    pub error_info: Seq<u8>,
}

impl View for FailureResultData {
    type V = FailureResultDataView;

    open spec fn view(&self) -> FailureResultDataView {
        FailureResultDataView {
            dna_address: self.dna_address@,
            request_id: self.request_id@,
            to_agent_id: self.to_agent_id@,
            error_info: self.error_info@,
        }
    }
}

impl Clone for FailureResultData {
    fn clone(&self) -> (r: Self)
        ensures
            r@ == self@,
    {
        FailureResultData {
            dna_address: clone_bytes(&self.dna_address),
            request_id: clone_bytes(&self.request_id),
            to_agent_id: clone_bytes(&self.to_agent_id),
            error_info: clone_bytes(&self.error_info),
        }
    }
}

/// Payload of the membership handshake request `TrackDna`.
pub struct TrackDnaData {
    pub dna_address: Vec<u8>,
    pub agent_id: Vec<u8>,
}

#[verifier::ext_equal]
pub struct TrackDnaDataView {
    pub dna_address: Seq<u8>,
    pub agent_id: Seq<u8>,
}

impl View for TrackDnaData {
    type V = TrackDnaDataView;

    open spec fn view(&self) -> TrackDnaDataView {
        TrackDnaDataView { dna_address: self.dna_address@, agent_id: self.agent_id@ }
    }
}

impl Clone for TrackDnaData {
    fn clone(&self) -> (r: Self)
        ensures
            r@ == self@,
    {
        TrackDnaData {
            dna_address: clone_bytes(&self.dna_address),
            agent_id: clone_bytes(&self.agent_id),
        }
    }
}

/// Payload of the `PeerConnected` notification.
pub struct PeerData {
    pub agent_id: Vec<u8>,
}

#[verifier::ext_equal]
pub struct PeerDataView {
    pub agent_id: Seq<u8>,
}

impl View for PeerData {
    type V = PeerDataView;

    open spec fn view(&self) -> PeerDataView {
        PeerDataView { agent_id: self.agent_id@ }
    }
}

impl Clone for PeerData {
    fn clone(&self) -> (r: Self)
        ensures
            r@ == self@,
    {
        PeerData { agent_id: clone_bytes(&self.agent_id) }
    }
}

/// Payload of a direct message between two agents.
pub struct MessageData {
    pub dna_address: Vec<u8>,
    pub to_agent_id: Vec<u8>,
    pub from_agent_id: Vec<u8>,
    pub content: Vec<u8>,
}

#[verifier::ext_equal]
pub struct MessageDataView {
    pub dna_address: Seq<u8>,
    pub to_agent_id: Seq<u8>,
    pub from_agent_id: Seq<u8>,
    pub content: Seq<u8>,
}

impl View for MessageData {
    type V = MessageDataView;

    open spec fn view(&self) -> MessageDataView {
        MessageDataView {
            dna_address: self.dna_address@,
            to_agent_id: self.to_agent_id@,
            from_agent_id: self.from_agent_id@,
            content: self.content@,
        }
    }
}

impl Clone for MessageData {
    fn clone(&self) -> (r: Self)
        ensures
            r@ == self@,
    {
        MessageData {
            dna_address: clone_bytes(&self.dna_address),
            to_agent_id: clone_bytes(&self.to_agent_id),
            from_agent_id: clone_bytes(&self.from_agent_id),
            content: clone_bytes(&self.content),
        }
    }
}

/// Payload of an entry being published or stored.
pub struct EntryData {
    pub dna_address: Vec<u8>,
    pub provider_agent_id: Vec<u8>,
    pub entry_address: Vec<u8>,
    pub entry_content: Vec<u8>,
}

#[verifier::ext_equal]
pub struct EntryDataView {
    pub dna_address: Seq<u8>,
    pub provider_agent_id: Seq<u8>,
    pub entry_address: Seq<u8>,
    pub entry_content: Seq<u8>,
}

impl View for EntryData {
    type V = EntryDataView;

    open spec fn view(&self) -> EntryDataView {
        EntryDataView {
            dna_address: self.dna_address@,
            provider_agent_id: self.provider_agent_id@,
            entry_address: self.entry_address@,
            entry_content: self.entry_content@,
        }
    }
}

impl Clone for EntryData {
    fn clone(&self) -> (r: Self)
        ensures
            r@ == self@,
    {
        EntryData {
            dna_address: clone_bytes(&self.dna_address),
            provider_agent_id: clone_bytes(&self.provider_agent_id),
            entry_address: clone_bytes(&self.entry_address),
            entry_content: clone_bytes(&self.entry_content),
        }
    }
}

/// Payload of a request for an entry.
pub struct FetchEntryData {
    pub dna_address: Vec<u8>,
    pub requester_agent_id: Vec<u8>,
    pub request_id: Vec<u8>,
    pub entry_address: Vec<u8>,
}

#[verifier::ext_equal]
pub struct FetchEntryDataView {
    pub dna_address: Seq<u8>,
    pub requester_agent_id: Seq<u8>,
    pub request_id: Seq<u8>,
    pub entry_address: Seq<u8>,
}

impl View for FetchEntryData {
    type V = FetchEntryDataView;

    open spec fn view(&self) -> FetchEntryDataView {
        FetchEntryDataView {
            dna_address: self.dna_address@,
            requester_agent_id: self.requester_agent_id@,
            request_id: self.request_id@,
            entry_address: self.entry_address@,
        }
    }
}

impl Clone for FetchEntryData {
    fn clone(&self) -> (r: Self)
        ensures
            r@ == self@,
    {
        FetchEntryData {
            dna_address: clone_bytes(&self.dna_address),
            requester_agent_id: clone_bytes(&self.requester_agent_id),
            request_id: clone_bytes(&self.request_id),
            entry_address: clone_bytes(&self.entry_address),
        }
    }
}

/// Payload of the response to a request for an entry.
pub struct FetchEntryResultData {
    pub dna_address: Vec<u8>,
    pub requester_agent_id: Vec<u8>,
    pub request_id: Vec<u8>,
    pub provider_agent_id: Vec<u8>,
    pub entry_address: Vec<u8>,
    pub entry_content: Vec<u8>,
}

#[verifier::ext_equal]
pub struct FetchEntryResultDataView {
    pub dna_address: Seq<u8>,
    pub requester_agent_id: Seq<u8>,
    pub request_id: Seq<u8>,
    pub provider_agent_id: Seq<u8>,
    pub entry_address: Seq<u8>,
    pub entry_content: Seq<u8>,
}

impl View for FetchEntryResultData {
    type V = FetchEntryResultDataView;

    open spec fn view(&self) -> FetchEntryResultDataView {
        FetchEntryResultDataView {
            dna_address: self.dna_address@,
            requester_agent_id: self.requester_agent_id@,
            request_id: self.request_id@,
            provider_agent_id: self.provider_agent_id@,
            entry_address: self.entry_address@,
            entry_content: self.entry_content@,
        }
    }
}

impl Clone for FetchEntryResultData {
    fn clone(&self) -> (r: Self)
        ensures
            r@ == self@,
    {
        FetchEntryResultData {
            dna_address: clone_bytes(&self.dna_address),
            requester_agent_id: clone_bytes(&self.requester_agent_id),
            request_id: clone_bytes(&self.request_id),
            provider_agent_id: clone_bytes(&self.provider_agent_id),
            entry_address: clone_bytes(&self.entry_address),
            entry_content: clone_bytes(&self.entry_content),
        }
    }
}

/// Payload of metadata being published or stored.
pub struct DhtMetaData {
    pub dna_address: Vec<u8>,
    pub provider_agent_id: Vec<u8>,
    pub entry_address: Vec<u8>,
    pub attribute: Vec<u8>,
    pub content: Vec<u8>,
}

#[verifier::ext_equal]
pub struct DhtMetaDataView {
    pub dna_address: Seq<u8>,
    pub provider_agent_id: Seq<u8>,
    pub entry_address: Seq<u8>,
    pub attribute: Seq<u8>,
    pub content: Seq<u8>,
}

impl View for DhtMetaData {
    type V = DhtMetaDataView;

    open spec fn view(&self) -> DhtMetaDataView {
        DhtMetaDataView {
            dna_address: self.dna_address@,
            provider_agent_id: self.provider_agent_id@,
            entry_address: self.entry_address@,
            attribute: self.attribute@,
            content: self.content@,
        }
    }
}

impl Clone for DhtMetaData {
    fn clone(&self) -> (r: Self)
        ensures
            r@ == self@,
    {
        DhtMetaData {
            dna_address: clone_bytes(&self.dna_address),
            provider_agent_id: clone_bytes(&self.provider_agent_id),
            entry_address: clone_bytes(&self.entry_address),
            attribute: clone_bytes(&self.attribute),
            content: clone_bytes(&self.content),
        }
    }
}

/// Payload of a request for metadata.
pub struct FetchMetaData {
    pub dna_address: Vec<u8>,
    pub requester_agent_id: Vec<u8>,
    pub request_id: Vec<u8>,
    pub entry_address: Vec<u8>,
    pub attribute: Vec<u8>,
}

#[verifier::ext_equal]
pub struct FetchMetaDataView {
    pub dna_address: Seq<u8>,
    pub requester_agent_id: Seq<u8>,
    pub request_id: Seq<u8>,
    pub entry_address: Seq<u8>,
    pub attribute: Seq<u8>,
}

impl View for FetchMetaData {
    type V = FetchMetaDataView;

    open spec fn view(&self) -> FetchMetaDataView {
        FetchMetaDataView {
            dna_address: self.dna_address@,
            requester_agent_id: self.requester_agent_id@,
            request_id: self.request_id@,
            entry_address: self.entry_address@,
            attribute: self.attribute@,
        }
    }
}

impl Clone for FetchMetaData {
    fn clone(&self) -> (r: Self)
        ensures
            r@ == self@,
    {
        FetchMetaData {
            dna_address: clone_bytes(&self.dna_address),
            requester_agent_id: clone_bytes(&self.requester_agent_id),
            request_id: clone_bytes(&self.request_id),
            entry_address: clone_bytes(&self.entry_address),
            attribute: clone_bytes(&self.attribute),
        }
    }
}

/// Payload of the response to a request for metadata.
pub struct FetchMetaResultData {
    pub dna_address: Vec<u8>,
    pub requester_agent_id: Vec<u8>,
    pub request_id: Vec<u8>,
    pub provider_agent_id: Vec<u8>,
    pub entry_address: Vec<u8>,
    pub attribute: Vec<u8>,
    pub content: Vec<u8>,
}

#[verifier::ext_equal]
pub struct FetchMetaResultDataView {
    pub dna_address: Seq<u8>,
    pub requester_agent_id: Seq<u8>,
    pub request_id: Seq<u8>,
    pub provider_agent_id: Seq<u8>,
    pub entry_address: Seq<u8>,
    pub attribute: Seq<u8>,
    pub content: Seq<u8>,
}

impl View for FetchMetaResultData {
    type V = FetchMetaResultDataView;

    open spec fn view(&self) -> FetchMetaResultDataView {
        FetchMetaResultDataView {
            dna_address: self.dna_address@,
            requester_agent_id: self.requester_agent_id@,
            request_id: self.request_id@,
            provider_agent_id: self.provider_agent_id@,
            entry_address: self.entry_address@,
            attribute: self.attribute@,
            content: self.content@,
        }
    }
}

impl Clone for FetchMetaResultData {
    fn clone(&self) -> (r: Self)
        ensures
            r@ == self@,
    {
        FetchMetaResultData {
            dna_address: clone_bytes(&self.dna_address),
            requester_agent_id: clone_bytes(&self.requester_agent_id),
            request_id: clone_bytes(&self.request_id),
            provider_agent_id: clone_bytes(&self.provider_agent_id),
            entry_address: clone_bytes(&self.entry_address),
            attribute: clone_bytes(&self.attribute),
            content: clone_bytes(&self.content),
        }
    }
}

/// Payload of a reconciliation request for one of an agent's lists.
pub struct GetListData {
    pub dna_address: Vec<u8>,
    pub request_id: Vec<u8>,
}

#[verifier::ext_equal]
pub struct GetListDataView {
    pub dna_address: Seq<u8>,
    pub request_id: Seq<u8>,
}

impl View for GetListData {
    type V = GetListDataView;

    open spec fn view(&self) -> GetListDataView {
        GetListDataView { dna_address: self.dna_address@, request_id: self.request_id@ }
    }
}

impl Clone for GetListData {
    fn clone(&self) -> (r: Self)
        ensures
            r@ == self@,
    {
        GetListData {
            dna_address: clone_bytes(&self.dna_address),
            request_id: clone_bytes(&self.request_id),
        }
    }
}

/// Payload of the response carrying a list of entry addresses.
pub struct EntryListData {
    pub dna_address: Vec<u8>,
    pub request_id: Vec<u8>,
    pub entry_address_list: Vec<Vec<u8>>,
}

#[verifier::ext_equal]
pub struct EntryListDataView {
    pub dna_address: Seq<u8>,
    pub request_id: Seq<u8>,
    pub entry_address_list: Seq<Seq<u8>>,
}

impl View for EntryListData {
    type V = EntryListDataView;

    open spec fn view(&self) -> EntryListDataView {
        EntryListDataView {
            dna_address: self.dna_address@,
            request_id: self.request_id@,
            entry_address_list: self.entry_address_list.deep_view(),
        }
    }
}

/// A copy of a list of byte strings.
pub fn clone_bytes_list(src: &Vec<Vec<u8>>) -> (r: Vec<Vec<u8>>)
    ensures
        r.deep_view() == src.deep_view(),
{
    let mut r: Vec<Vec<u8>> = Vec::new();
    let mut i: usize = 0;
    while i < src.len()
        invariant
            i <= src@.len(),
            r@.len() == i,
            forall|j: int| 0 <= j < i ==> (#[trigger] r@[j])@ == src@[j]@,
        decreases src@.len() - i,
    {
        r.push(clone_bytes(&src[i]));
        i = i + 1;
    }
    proof {
        assert(r.deep_view() =~= src.deep_view());
    }
    r
}

/// A copy of a list of `(data address, attribute)` pairs.
pub fn clone_meta_list(src: &Vec<(Vec<u8>, Vec<u8>)>) -> (r: Vec<(Vec<u8>, Vec<u8>)>)
    ensures
        r.deep_view() == src.deep_view(),
{
    let mut r: Vec<(Vec<u8>, Vec<u8>)> = Vec::new();
    let mut i: usize = 0;
    while i < src.len()
        invariant
            i <= src@.len(),
            r@.len() == i,
            forall|j: int|
                0 <= j < i ==> (#[trigger] r@[j]).0@ == src@[j].0@ && r@[j].1@ == src@[j].1@,
        decreases src@.len() - i,
    {
        let pair = (clone_bytes(&src[i].0), clone_bytes(&src[i].1));
        r.push(pair);
        i = i + 1;
    }
    proof {
        assert(r.deep_view() =~= src.deep_view());
    }
    r
}

impl Clone for EntryListData {
    fn clone(&self) -> (r: Self)
        ensures
            r@ == self@,
    {
        EntryListData {
            dna_address: clone_bytes(&self.dna_address),
            request_id: clone_bytes(&self.request_id),
            entry_address_list: clone_bytes_list(&self.entry_address_list),
        }
    }
}

/// Payload of the response carrying a list of `(data address, attribute)` pairs.
pub struct MetaListData {
    pub dna_address: Vec<u8>,
    pub request_id: Vec<u8>,
    pub meta_list: Vec<(Vec<u8>, Vec<u8>)>,
}

#[verifier::ext_equal]
pub struct MetaListDataView {
    pub dna_address: Seq<u8>,
    pub request_id: Seq<u8>,
    pub meta_list: Seq<(Seq<u8>, Seq<u8>)>,
}

impl View for MetaListData {
    type V = MetaListDataView;

    open spec fn view(&self) -> MetaListDataView {
        MetaListDataView {
            dna_address: self.dna_address@,
            request_id: self.request_id@,
            meta_list: self.meta_list.deep_view(),
        }
    }
}

impl Clone for MetaListData {
    fn clone(&self) -> (r: Self)
        ensures
            r@ == self@,
    {
        MetaListData {
            dna_address: clone_bytes(&self.dna_address),
            request_id: clone_bytes(&self.request_id),
            meta_list: clone_meta_list(&self.meta_list),
        }
    }
}

/// A protocol message submitted to or emitted by a server.  `Unknown` stands
/// for any frame the server does not understand; serving one is a no-op.
pub enum ProtocolMessage {
    SuccessResult(ResultData),
    FailureResult(FailureResultData),
    TrackDna(TrackDnaData),
    PeerConnected(PeerData),
    SendMessage(MessageData),
    HandleSendMessage(MessageData),
    HandleSendMessageResult(MessageData),
    SendMessageResult(MessageData),
    PublishEntry(EntryData),
    HandleStoreEntry(EntryData),
    FetchEntry(FetchEntryData),
    HandleFetchEntry(FetchEntryData),
    HandleFetchEntryResult(FetchEntryResultData),
    FetchEntryResult(FetchEntryResultData),
    PublishMeta(DhtMetaData),
    HandleStoreMeta(DhtMetaData),
    FetchMeta(FetchMetaData),
    HandleFetchMeta(FetchMetaData),
    HandleFetchMetaResult(FetchMetaResultData),
    FetchMetaResult(FetchMetaResultData),
    HandleGetPublishingEntryList(GetListData),
    HandleGetHoldingEntryList(GetListData),
    HandleGetPublishingMetaList(GetListData),
    HandleGetHoldingMetaList(GetListData),
    HandleGetPublishingEntryListResult(EntryListData),
    HandleGetHoldingEntryListResult(EntryListData),
    HandleGetPublishingMetaListResult(MetaListData),
    HandleGetHoldingMetaListResult(MetaListData),
    Unknown,
}

/// The mathematical value of a protocol message.
#[verifier::ext_equal]
pub enum ProtocolMessageView {
    SuccessResult(ResultDataView),
    FailureResult(FailureResultDataView),
    TrackDna(TrackDnaDataView),
    PeerConnected(PeerDataView),
    SendMessage(MessageDataView),
    HandleSendMessage(MessageDataView),
    HandleSendMessageResult(MessageDataView),
    SendMessageResult(MessageDataView),
    PublishEntry(EntryDataView),
    HandleStoreEntry(EntryDataView),
    FetchEntry(FetchEntryDataView),
    HandleFetchEntry(FetchEntryDataView),
    HandleFetchEntryResult(FetchEntryResultDataView),
    FetchEntryResult(FetchEntryResultDataView),
    PublishMeta(DhtMetaDataView),
    HandleStoreMeta(DhtMetaDataView),
    FetchMeta(FetchMetaDataView),
    HandleFetchMeta(FetchMetaDataView),
    HandleFetchMetaResult(FetchMetaResultDataView),
    FetchMetaResult(FetchMetaResultDataView),
    HandleGetPublishingEntryList(GetListDataView),
    HandleGetHoldingEntryList(GetListDataView),
    HandleGetPublishingMetaList(GetListDataView),
    HandleGetHoldingMetaList(GetListDataView),
    HandleGetPublishingEntryListResult(EntryListDataView),
    HandleGetHoldingEntryListResult(EntryListDataView),
    HandleGetPublishingMetaListResult(MetaListDataView),
    HandleGetHoldingMetaListResult(MetaListDataView),
    Unknown,
}

impl View for ProtocolMessage {
    type V = ProtocolMessageView;

    open spec fn view(&self) -> ProtocolMessageView {
        match self {
            ProtocolMessage::SuccessResult(d) => ProtocolMessageView::SuccessResult(d@),
            ProtocolMessage::FailureResult(d) => ProtocolMessageView::FailureResult(d@),
            ProtocolMessage::TrackDna(d) => ProtocolMessageView::TrackDna(d@),
            ProtocolMessage::PeerConnected(d) => ProtocolMessageView::PeerConnected(d@),
            ProtocolMessage::SendMessage(d) => ProtocolMessageView::SendMessage(d@),
            ProtocolMessage::HandleSendMessage(d) => ProtocolMessageView::HandleSendMessage(d@),
            ProtocolMessage::HandleSendMessageResult(d) => ProtocolMessageView::HandleSendMessageResult(d@),
            ProtocolMessage::SendMessageResult(d) => ProtocolMessageView::SendMessageResult(d@),
            ProtocolMessage::PublishEntry(d) => ProtocolMessageView::PublishEntry(d@),
            ProtocolMessage::HandleStoreEntry(d) => ProtocolMessageView::HandleStoreEntry(d@),
            ProtocolMessage::FetchEntry(d) => ProtocolMessageView::FetchEntry(d@),
            ProtocolMessage::HandleFetchEntry(d) => ProtocolMessageView::HandleFetchEntry(d@),
            ProtocolMessage::HandleFetchEntryResult(d) => ProtocolMessageView::HandleFetchEntryResult(d@),
            ProtocolMessage::FetchEntryResult(d) => ProtocolMessageView::FetchEntryResult(d@),
            ProtocolMessage::PublishMeta(d) => ProtocolMessageView::PublishMeta(d@),
            ProtocolMessage::HandleStoreMeta(d) => ProtocolMessageView::HandleStoreMeta(d@),
            ProtocolMessage::FetchMeta(d) => ProtocolMessageView::FetchMeta(d@),
            ProtocolMessage::HandleFetchMeta(d) => ProtocolMessageView::HandleFetchMeta(d@),
            ProtocolMessage::HandleFetchMetaResult(d) => ProtocolMessageView::HandleFetchMetaResult(d@),
            ProtocolMessage::FetchMetaResult(d) => ProtocolMessageView::FetchMetaResult(d@),
            ProtocolMessage::HandleGetPublishingEntryList(d) => ProtocolMessageView::HandleGetPublishingEntryList(d@),
            ProtocolMessage::HandleGetHoldingEntryList(d) => ProtocolMessageView::HandleGetHoldingEntryList(d@),
            ProtocolMessage::HandleGetPublishingMetaList(d) => ProtocolMessageView::HandleGetPublishingMetaList(d@),
            ProtocolMessage::HandleGetHoldingMetaList(d) => ProtocolMessageView::HandleGetHoldingMetaList(d@),
            ProtocolMessage::HandleGetPublishingEntryListResult(d) => ProtocolMessageView::HandleGetPublishingEntryListResult(d@),
            ProtocolMessage::HandleGetHoldingEntryListResult(d) => ProtocolMessageView::HandleGetHoldingEntryListResult(d@),
            ProtocolMessage::HandleGetPublishingMetaListResult(d) => ProtocolMessageView::HandleGetPublishingMetaListResult(d@),
            ProtocolMessage::HandleGetHoldingMetaListResult(d) => ProtocolMessageView::HandleGetHoldingMetaListResult(d@),
            ProtocolMessage::Unknown => ProtocolMessageView::Unknown,
        }
    }
}

impl Clone for ProtocolMessage {
    fn clone(&self) -> (r: Self)
        ensures
            r@ == self@,
    {
        match self {
            ProtocolMessage::SuccessResult(d) => ProtocolMessage::SuccessResult(d.clone()),
            ProtocolMessage::FailureResult(d) => ProtocolMessage::FailureResult(d.clone()),
            ProtocolMessage::TrackDna(d) => ProtocolMessage::TrackDna(d.clone()),
            ProtocolMessage::PeerConnected(d) => ProtocolMessage::PeerConnected(d.clone()),
            ProtocolMessage::SendMessage(d) => ProtocolMessage::SendMessage(d.clone()),
            ProtocolMessage::HandleSendMessage(d) => ProtocolMessage::HandleSendMessage(d.clone()),
            ProtocolMessage::HandleSendMessageResult(d) => ProtocolMessage::HandleSendMessageResult(d.clone()),
            ProtocolMessage::SendMessageResult(d) => ProtocolMessage::SendMessageResult(d.clone()),
            ProtocolMessage::PublishEntry(d) => ProtocolMessage::PublishEntry(d.clone()),
            ProtocolMessage::HandleStoreEntry(d) => ProtocolMessage::HandleStoreEntry(d.clone()),
            ProtocolMessage::FetchEntry(d) => ProtocolMessage::FetchEntry(d.clone()),
            ProtocolMessage::HandleFetchEntry(d) => ProtocolMessage::HandleFetchEntry(d.clone()),
            ProtocolMessage::HandleFetchEntryResult(d) => ProtocolMessage::HandleFetchEntryResult(d.clone()),
            ProtocolMessage::FetchEntryResult(d) => ProtocolMessage::FetchEntryResult(d.clone()),
            ProtocolMessage::PublishMeta(d) => ProtocolMessage::PublishMeta(d.clone()),
            ProtocolMessage::HandleStoreMeta(d) => ProtocolMessage::HandleStoreMeta(d.clone()),
            ProtocolMessage::FetchMeta(d) => ProtocolMessage::FetchMeta(d.clone()),
            ProtocolMessage::HandleFetchMeta(d) => ProtocolMessage::HandleFetchMeta(d.clone()),
            ProtocolMessage::HandleFetchMetaResult(d) => ProtocolMessage::HandleFetchMetaResult(d.clone()),
            ProtocolMessage::FetchMetaResult(d) => ProtocolMessage::FetchMetaResult(d.clone()),
            ProtocolMessage::HandleGetPublishingEntryList(d) => ProtocolMessage::HandleGetPublishingEntryList(d.clone()),
            ProtocolMessage::HandleGetHoldingEntryList(d) => ProtocolMessage::HandleGetHoldingEntryList(d.clone()),
            ProtocolMessage::HandleGetPublishingMetaList(d) => ProtocolMessage::HandleGetPublishingMetaList(d.clone()),
            ProtocolMessage::HandleGetHoldingMetaList(d) => ProtocolMessage::HandleGetHoldingMetaList(d.clone()),
            ProtocolMessage::HandleGetPublishingEntryListResult(d) => ProtocolMessage::HandleGetPublishingEntryListResult(d.clone()),
            ProtocolMessage::HandleGetHoldingEntryListResult(d) => ProtocolMessage::HandleGetHoldingEntryListResult(d.clone()),
            ProtocolMessage::HandleGetPublishingMetaListResult(d) => ProtocolMessage::HandleGetPublishingMetaListResult(d.clone()),
            ProtocolMessage::HandleGetHoldingMetaListResult(d) => ProtocolMessage::HandleGetHoldingMetaListResult(d.clone()),
            ProtocolMessage::Unknown => ProtocolMessage::Unknown,
        }
    }
}

} // verus!
