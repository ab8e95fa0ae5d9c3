//! Joining listed crates with what was fetched for them: the registry's last
//! update and the README fragment of the detail page.
use crate::parser::{clone_opt, extract_content, opt_view, readme_of, Crate, CrateMeta, Page};
use crate::time::Timestamp;
use vstd::prelude::*;

verus! {

/// What the network returned for one listed crate; `None` where that lookup failed.
pub struct Fetched {
    /// Body of the crate's detail page.
    pub page: Option<String>,
    /// Last update, as the registry reports it.
    pub last_update: Option<Timestamp>,
}

/// Why a batch of crates could not be enriched.
#[derive(Clone, Copy, Debug, PartialEq, Eq)]
pub enum EnrichError {
    /// There is not exactly one fetch result per listed crate.
    CountMismatch,
    /// A lookup failed for the crate at this position.
    Fetch(usize),
    /// The detail page of the crate at this position has no README container.
    MissingReadme(usize),
}

/// Both lookups for one crate succeeded.
pub open spec fn fetched_ok(f: Fetched) -> bool {
    f.page is Some && f.last_update is Some
}

/// Two records hold the same text.
pub open spec fn same_meta(a: CrateMeta, b: CrateMeta) -> bool {
    &&& a.url@ == b.url@
    &&& a.title@ == b.title@
    &&& a.description@ == b.description@
    &&& opt_view(a.version) == opt_view(b.version)
    &&& opt_view(a.pubdate) == opt_view(b.pubdate)
}

fn copy_meta(m: &CrateMeta) -> (r: CrateMeta)
    ensures
        same_meta(r, *m),
{
    CrateMeta {
        url: m.url.clone(),
        title: m.title.clone(),
        description: m.description.clone(),
        version: clone_opt(&m.version),
        pubdate: clone_opt(&m.pubdate),
    }
}

/// Both lookups succeeded and the page has a README container.
pub open spec fn record_ok(f: Fetched) -> bool {
    fetched_ok(f) && readme_of(f.page->0@) is Some
}

/// Joins each listed crate with its fetch result, position by position.
/// The batch is all-or-nothing: the first crate, in listing order, whose
/// lookup failed or whose page has no README ends it with an error.
pub fn enrich(metas: &Vec<CrateMeta>, fetched: &Vec<Fetched>) -> (r: Result<Vec<Crate>, EnrichError>)
    requires
        forall|i: int|
            0 <= i < fetched@.len() && (#[trigger] fetched@[i]).last_update is Some
                ==> fetched@[i].last_update->0.wf(),
    ensures
        metas@.len() != fetched@.len() <==> r == Err::<Vec<Crate>, EnrichError>(
            EnrichError::CountMismatch,
        ),
        r is Ok <==> metas@.len() == fetched@.len() && forall|i: int|
            0 <= i < fetched@.len() ==> record_ok(#[trigger] fetched@[i]),
        r is Ok ==> {
            &&& r->Ok_0@.len() == metas@.len()
            &&& forall|i: int|
                0 <= i < metas@.len() ==> {
                    &&& same_meta((#[trigger] r->Ok_0@[i]).meta, metas@[i])
                    &&& r->Ok_0@[i].last_update == fetched@[i].last_update->0
                    &&& r->Ok_0@[i].last_update.wf()
                    &&& readme_of(fetched@[i].page->0@) == Some(r->Ok_0@[i].content@)
                }
        },
        r is Err && r->Err_0 is Fetch ==> ({
            let i = r->Err_0->Fetch_0 as int;
            &&& 0 <= i < fetched@.len() == metas@.len()
            &&& !fetched_ok(fetched@[i])
            &&& forall|j: int| 0 <= j < i ==> record_ok(#[trigger] fetched@[j])
        }),
        r is Err && r->Err_0 is MissingReadme ==> ({
            let i = r->Err_0->MissingReadme_0 as int;
            &&& 0 <= i < fetched@.len() == metas@.len()
            &&& fetched_ok(fetched@[i])
            &&& readme_of(fetched@[i].page->0@) is None
            &&& forall|j: int| 0 <= j < i ==> record_ok(#[trigger] fetched@[j])
        }),
{
    if metas.len() != fetched.len() {
        return Err(EnrichError::CountMismatch);
    }
    let mut out: Vec<Crate> = Vec::new();
    let mut i: usize = 0;
    while i < metas.len()
        invariant
            i <= metas@.len() == fetched@.len(),
            out@.len() == i,
            forall|j: int|
                0 <= j < fetched@.len() && (#[trigger] fetched@[j]).last_update is Some
                    ==> fetched@[j].last_update->0.wf(),
            forall|j: int| 0 <= j < i ==> record_ok(#[trigger] fetched@[j]),
            forall|j: int|
                0 <= j < i ==> {
                    &&& same_meta((#[trigger] out@[j]).meta, metas@[j])
                    &&& out@[j].last_update == fetched@[j].last_update->0
                    &&& out@[j].last_update.wf()
                    &&& readme_of(fetched@[j].page->0@) == Some(out@[j].content@)
                },
        decreases metas@.len() - i,
    {
        let f = &fetched[i];
        match (&f.page, &f.last_update) {
            (Some(page), Some(last_update)) => {
                let doc = Page::parse(page.as_str());
                match extract_content(&doc) {
                    Some(content) => {
                        out.push(Crate { meta: copy_meta(&metas[i]), last_update: *last_update, content });
                    },
                    None => {
                        return Err(EnrichError::MissingReadme(i));
                    },
                }
            },
            _ => {
                return Err(EnrichError::Fetch(i));
            },
        }
        i = i + 1;
    }
    Ok(out)
}

} // verus!
