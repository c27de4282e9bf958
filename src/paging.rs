//! The decisions of fetching a whole reading list page by page: which page
//! to ask for next, how a page is merged, and when to stop.
use vstd::prelude::*;
use crate::id_map::IdMap;
use crate::model::ItemOrDeletedItem;
use crate::query::{DetailType, GetInput, State};
use crate::response::{DecodeError, ReadingList, ResponseState};

verus! {

/// The number of items asked for per page.
pub const DEFAULT_COUNT: u32 = 5000;

/// The request for page `page`: everything, in complete detail, the `page`-th
/// run of `DEFAULT_COUNT` items.
pub open spec fn is_page_query(q: GetInput, page: u32) -> bool {
    &&& q.state == Some(State::All)
    &&& q.detail_type == Some(DetailType::Complete)
    &&& q.count == Some(DEFAULT_COUNT)
    &&& q.offset == Some((page * DEFAULT_COUNT) as u32)
    &&& q.favorite is None
    &&& q.tag is None
    &&& q.content_type is None
    &&& q.sort is None
    &&& q.search is None
    &&& q.domain is None
    &&& q.since is None
}

/// The last page whose offset fits the request.
pub open spec fn last_page() -> u32 {
    (u32::MAX / DEFAULT_COUNT) as u32
}

/// A reading list being fetched: what the pages so far held, and the number
/// of the next page.
#[derive(Debug)]
pub struct ListAll {
    pub reading_list: ReadingList,
    pub page: u32,
}

/// What to do after a page arrived.
#[derive(Debug)]
pub enum ListAllStep {
    /// Ask for the next page.
    Continue(ListAll),
    /// The list is complete.
    Done(ReadingList),
    /// The page could not be read; what was gathered is dropped.
    Failed(DecodeError),
    /// The next page's offset would not fit in a request.
    TooManyPages,
}

impl ListAll {
    pub open spec fn wf(&self) -> bool {
        self.reading_list.wf() && self.page <= last_page()
    }

    /// Nothing fetched yet; the first page is next.
    pub fn new() -> (r: ListAll)
        ensures
            r.wf(),
            r.page == 0,
            r.reading_list@ == Map::<Seq<char>, ItemOrDeletedItem>::empty(),
    {
        ListAll { reading_list: IdMap::new(), page: 0 }
    }

    /// The request for the next page.
    pub fn query(&self) -> (r: GetInput)
        requires
            self.wf(),
        ensures
            is_page_query(r, self.page),
    {
        assert(self.page * DEFAULT_COUNT <= u32::MAX) by (nonlinear_arith)
            requires
                self.page <= last_page(),
        ;
        let mut q = GetInput::default();
        q.state = Some(State::All);
        q.detail_type = Some(DetailType::Complete);
        q.count = Some(DEFAULT_COUNT);
        q.offset = Some(self.page * DEFAULT_COUNT);
        q
    }

    /// Takes in what the request for the next page gave: a page is merged,
    /// a later entry replacing an earlier one of the same id; the end of the
    /// list finishes; an error fails the whole fetch.
    pub fn on_page(self, page: Result<ResponseState, DecodeError>) -> (r: ListAllStep)
        requires
            self.wf(),
            page matches Ok(ResponseState::Parsed(l)) ==> l.wf(),
        ensures
            page matches Ok(ResponseState::Parsed(l)) ==> if self.page < last_page() {
                (r matches ListAllStep::Continue(next) && next.wf() && next.page == self.page + 1
                    && next.reading_list@ == self.reading_list@.union_prefer_right(l@))
            } else {
                r is TooManyPages
            },
            page matches Ok(ResponseState::NoMore) ==> (r matches ListAllStep::Done(l) && l.wf()
                && l@ == self.reading_list@),
            page is Err ==> (r matches ListAllStep::Failed(e) && page == Err::<
                ResponseState,
                DecodeError,
            >(e)),
    {
        match page {
            Ok(ResponseState::Parsed(l)) => {
                if self.page < u32::MAX / DEFAULT_COUNT {
                    let mut reading_list = self.reading_list;
                    reading_list.extend(l);
                    ListAllStep::Continue(ListAll { reading_list, page: self.page + 1 })
                } else {
                    ListAllStep::TooManyPages
                }
            },
            Ok(ResponseState::NoMore) => ListAllStep::Done(self.reading_list),
            Err(e) => ListAllStep::Failed(e),
        }
    }
}

/// Merging pages whose item ids are disjoint gathers every id, and as many
/// entries as the pages hold together.
pub proof fn lemma_disjoint_pages_merge(first: ReadingList, second: ReadingList)
    requires
        first.wf(),
        second.wf(),
        first@.dom().disjoint(second@.dom()),
    ensures
        ({
            let merged = Map::<Seq<char>, ItemOrDeletedItem>::empty().union_prefer_right(
                first@,
            ).union_prefer_right(second@);
            &&& merged.dom() == first@.dom().union(second@.dom())
            &&& merged.len() == first@.len() + second@.len()
        }),
{
    let merged = Map::<Seq<char>, ItemOrDeletedItem>::empty().union_prefer_right(
        first@,
    ).union_prefer_right(second@);
    first.lemma_finite();
    second.lemma_finite();
    assert(merged.dom() =~= first@.dom().union(second@.dom()));
    vstd::set_lib::lemma_set_disjoint_lens(first@.dom(), second@.dom());
}

} // verus!
