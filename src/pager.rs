use vstd::prelude::*;
use crate::catalog::Patch;
use crate::url::{list_page_url, list_url};

verus! {

/// The page of the listing to ask for next.
#[derive(Clone, Copy, Debug, PartialEq, Eq, Structural)]
pub struct GetPatchesRequest {
    pub platform: usize,
    /// Page number; the first page is 1.
    pub page: usize,
}

/// What one page of the listing brought.
#[derive(Debug)]
pub struct PatchesPage {
    pub patches: Vec<Patch>,
    /// The response announced a following page.
    pub has_next: bool,
}

/// One step of the reader: the items of a page, and the request for the
/// page after it where there is one.
#[derive(Debug)]
pub struct TurnedPatches {
    pub items: Vec<Patch>,
    pub next: Option<GetPatchesRequest>,
}

/// The request that starts the reading of a platform's listing.
pub open spec fn first_request(platform: usize) -> GetPatchesRequest {
    GetPatchesRequest { platform, page: 1 }
}

/// The request that follows `req`, if its page announced a following one.
pub open spec fn next_request(req: GetPatchesRequest, has_next: bool) -> Option<GetPatchesRequest> {
    if has_next {
        Some(GetPatchesRequest { platform: req.platform, page: (req.page + 1) as usize })
    } else {
        None
    }
}

/// The page numbers a reader in `state` asks for when the pages it reads
/// announce, in turn, the continuations in `flags`.
pub open spec fn pages_read(state: Option<GetPatchesRequest>, flags: Seq<bool>) -> Seq<usize>
    decreases flags.len(),
{
    match state {
        None => Seq::empty(),
        Some(req) => if flags.len() == 0 {
            Seq::empty()
        } else {
            seq![req.page] + pages_read(next_request(req, flags[0]), flags.drop_first())
        },
    }
}

impl GetPatchesRequest {
    /// The request for the first page of a platform's listing.
    pub fn first(platform: usize) -> (r: GetPatchesRequest)
        ensures
            r == first_request(platform),
    {
        GetPatchesRequest { platform, page: 1 }
    }

    /// The address this request is sent to.
    pub fn build(&self) -> (r: String)
        ensures
            r@ == list_url(self.platform as nat, self.page as nat),
    {
        list_page_url(self.platform as u64, self.page as u64)
    }
}

/// Moves the reader past one page: hands out its items, and asks for the
/// next page only where this one announced it.
pub fn turn_page(request: GetPatchesRequest, page: PatchesPage) -> (r: TurnedPatches)
    requires
        page.has_next ==> request.page < usize::MAX,
    ensures
        r.items@ == page.patches@,
        r.next == next_request(request, page.has_next),
        r.next matches Some(n) ==> n.platform == request.platform && n.page > request.page,
{
    if page.has_next {
        let next = GetPatchesRequest { platform: request.platform, page: request.page + 1 };
        TurnedPatches { items: page.patches, next: Some(next) }
    } else {
        TurnedPatches { items: page.patches, next: None }
    }
}

/// From page `start`, pages announcing a continuation `m - 1` times and then
/// none make the reader ask for pages `start` to `start + m - 1` and stop.
proof fn lemma_pages_from(req: GetPatchesRequest, m: nat, flags: Seq<bool>)
    requires
        1 <= m <= flags.len(),
        req.page + m - 1 <= usize::MAX,
        forall|k: int| 0 <= k < m - 1 ==> flags[k],
        !flags[m - 1],
    ensures
        pages_read(Some(req), flags) == Seq::new(m, |k: int| (req.page + k) as usize),
    decreases m,
{
    let rest = pages_read(next_request(req, flags[0]), flags.drop_first());
    if m == 1 {
        assert(rest == Seq::<usize>::empty());
    } else {
        let next = GetPatchesRequest { platform: req.platform, page: (req.page + 1) as usize };
        assert(flags[0]);
        lemma_pages_from(next, (m - 1) as nat, flags.drop_first());
    }
    assert(pages_read(Some(req), flags) =~= Seq::new(m, |k: int| (req.page + k) as usize));
}

/// Pagination ends: where pages 1 to `n - 1` announce a continuation and
/// page `n` does not, the reader reads exactly `n` pages, numbered 1 to `n`,
/// and asks for nothing after them.
pub proof fn lemma_pagination_halts(platform: usize, n: nat, flags: Seq<bool>)
    requires
        1 <= n <= flags.len(),
        n <= usize::MAX,
        forall|k: int| 0 <= k < n - 1 ==> flags[k],
        !flags[n - 1],
    ensures
        pages_read(Some(first_request(platform)), flags).len() == n,
        pages_read(Some(first_request(platform)), flags) == Seq::new(n, |k: int| (k + 1) as usize),
{
    lemma_pages_from(first_request(platform), n, flags);
    assert(Seq::new(n, |k: int| (first_request(platform).page + k) as usize) =~= Seq::new(
        n,
        |k: int| (k + 1) as usize,
    ));
}

} // verus!
