//! What the memory service is asked for and what it answers.

use crate::view::{View, ViewModel};
use vstd::prelude::*;
use vstd::view::View as _;

verus! {

/// A memory bank as the service lists it.
#[derive(Clone, Debug)]
pub struct Bank {
    pub id: String,
    pub name: String,
}

/// A stored memory; the service may leave any field out.
#[derive(Clone, Debug)]
pub struct MemoryRecord {
    pub kind: Option<String>,
    pub created_at: Option<String>,
    pub text: Option<String>,
}

/// An entity the memories of a bank mention.
#[derive(Clone, Debug)]
pub struct Entity {
    pub canonical_name: String,
    pub mention_count: i64,
}

/// A document of a bank; the service may leave any field out.
#[derive(Clone, Debug)]
pub struct Document {
    pub id: Option<String>,
    pub content_type: Option<String>,
}

/// One hit of a recall query.
#[derive(Clone, Debug)]
pub struct RecallResult {
    pub text: String,
    pub kind: Option<String>,
    pub context: Option<String>,
    pub occurred_start: Option<String>,
    pub occurred_end: Option<String>,
    pub document_id: Option<String>,
}

/// How much effort the service may spend on a query.
#[derive(Clone, Copy, Debug, PartialEq, Eq, Structural)]
pub enum Budget {
    Low,
    Mid,
    High,
}

/// Items asked for in one listing.
pub const PAGE_SIZE: u32 = 100;

/// Output tokens a recall may produce.
pub const RECALL_MAX_TOKENS: u32 = 4096;

/// A request to the memory service, with texts as sequences of characters.
pub enum FetchRequestModel {
    ListBanks,
    ListMemories { bank: Seq<char>, page_size: u32, offset: u32 },
    ListEntities { bank: Seq<char>, limit: u32 },
    ListDocuments { bank: Seq<char>, page_size: u32, offset: u32 },
    Recall { bank: Seq<char>, query: Seq<char>, budget: Budget, max_tokens: u32, trace: bool },
    Reflect { bank: Seq<char>, query: Seq<char>, budget: Budget },
}

/// A request to the memory service.
#[derive(Clone, Debug)]
pub enum FetchRequest {
    ListBanks,
    ListMemories { bank_id: String, page_size: u32, offset: u32 },
    ListEntities { bank_id: String, limit: u32 },
    ListDocuments { bank_id: String, page_size: u32, offset: u32 },
    Recall { bank_id: String, query: String, budget: Budget, max_tokens: u32, trace: bool },
    Reflect { bank_id: String, query: String, budget: Budget },
}

impl FetchRequest {
    pub open spec fn view(&self) -> FetchRequestModel {
        match *self {
            FetchRequest::ListBanks => FetchRequestModel::ListBanks,
            FetchRequest::ListMemories { bank_id, page_size, offset } => FetchRequestModel::ListMemories {
                bank: bank_id@,
                page_size,
                offset,
            },
            FetchRequest::ListEntities { bank_id, limit } => FetchRequestModel::ListEntities {
                bank: bank_id@,
                limit,
            },
            FetchRequest::ListDocuments { bank_id, page_size, offset } => FetchRequestModel::ListDocuments {
                bank: bank_id@,
                page_size,
                offset,
            },
            FetchRequest::Recall { bank_id, query, budget, max_tokens, trace } => FetchRequestModel::Recall {
                bank: bank_id@,
                query: query@,
                budget,
                max_tokens,
                trace,
            },
            FetchRequest::Reflect { bank_id, query, budget } => FetchRequestModel::Reflect {
                bank: bank_id@,
                query: query@,
                budget,
            },
        }
    }
}

/// The model of a request that may be absent.
pub open spec fn request_model(request: Option<FetchRequest>) -> Option<FetchRequestModel> {
    match request {
        Some(r) => Some(r@),
        None => None,
    }
}

/// The request that reloads a screen: the listing of what it shows, with a
/// fixed page size and no offset. Recall and reflect screens are never
/// reloaded; they change only when a query is run.
pub open spec fn reload_request(view: ViewModel) -> Option<FetchRequestModel> {
    match view {
        ViewModel::Banks => Some(FetchRequestModel::ListBanks),
        ViewModel::Memories(bank) => Some(
            FetchRequestModel::ListMemories { bank, page_size: PAGE_SIZE, offset: 0 },
        ),
        ViewModel::Entities(bank) => Some(FetchRequestModel::ListEntities { bank, limit: PAGE_SIZE }),
        ViewModel::Documents(bank) => Some(
            FetchRequestModel::ListDocuments { bank, page_size: PAGE_SIZE, offset: 0 },
        ),
        ViewModel::Recall(_) => None,
        ViewModel::Reflect(_) => None,
    }
}

/// The recall query with its fixed settings.
pub open spec fn recall_request(bank: Seq<char>, query: Seq<char>) -> FetchRequestModel {
    FetchRequestModel::Recall {
        bank,
        query,
        budget: Budget::Mid,
        max_tokens: RECALL_MAX_TOKENS,
        trace: false,
    }
}

/// The reflect query with its fixed settings.
pub open spec fn reflect_request(bank: Seq<char>, query: Seq<char>) -> FetchRequestModel {
    FetchRequestModel::Reflect { bank, query, budget: Budget::Mid }
}

/// The request that reloads `view`, if it is a screen that reloads.
pub fn reload_for(view: &View) -> (request: Option<FetchRequest>)
    ensures
        request_model(request) == reload_request(view@),
{
    match view {
        View::Banks => Some(FetchRequest::ListBanks),
        View::Memories(id) => Some(
            FetchRequest::ListMemories { bank_id: id.clone(), page_size: PAGE_SIZE, offset: 0 },
        ),
        View::Entities(id) => Some(FetchRequest::ListEntities { bank_id: id.clone(), limit: PAGE_SIZE }),
        View::Documents(id) => Some(
            FetchRequest::ListDocuments { bank_id: id.clone(), page_size: PAGE_SIZE, offset: 0 },
        ),
        View::Recall(_) => None,
        View::Reflect(_) => None,
    }
}

/// What came back from the memory service.
#[derive(Debug)]
pub enum FetchResponse {
    Banks(Vec<Bank>),
    Memories(Vec<MemoryRecord>),
    Entities(Vec<Entity>),
    Documents(Vec<Document>),
    Recall(Vec<RecallResult>),
    Reflect(String),
    Failed(String),
}

} // verus!
