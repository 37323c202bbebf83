//! Updating a batch of monitors, one after the other.

use crate::error::{update_message, SimpleError, UpdateError};
use crate::monitor::{description, page_of, updated, ProductView, SiteView, Stock};
use vstd::prelude::*;
use vstd::string::*;

verus! {

/// What one monitor of a batch has to report.
#[derive(Debug, PartialEq, Eq)]
pub struct Report {
    /// The status line of the monitor after its update.
    pub line: String,
    /// Why the update failed, if it did.
    pub error: Option<UpdateError>,
}

/// The error of an update, if any.
pub open spec fn failure(result: Result<(), UpdateError>) -> Option<UpdateError> {
    match result {
        Ok(_) => None,
        Err(cause) => Some(cause),
    }
}

/// The report that an update of a monitor leads to: the status line of the
/// updated product, and the error of the update.
pub open spec fn is_report_of(
    report: Report,
    site: SiteView,
    before: ProductView,
    fetched: Result<String, SimpleError>,
) -> bool {
    &&& report.line@ == description(updated(site, before, page_of(fetched)).product)
    &&& report.error == failure(updated(site, before, page_of(fetched)).result)
}

/// The notice that announces a failed update.
pub open spec fn notice_text(error: UpdateError) -> Seq<char> {
    "Error occurred while updating: "@ + update_message(error)
}

impl Report {
    /// The notice that goes with the status line where the update failed.
    pub fn notice(&self) -> (notice: Option<String>)
        ensures
            match notice {
                Some(text) => self.error is Some && text@ == notice_text(self.error->0),
                None => self.error is None,
            },
    {
        match &self.error {
            Some(error) => {
                let mut text = "Error occurred while updating: ".to_owned();
                let message = error.message();
                text.append(message.as_str());
                Some(text)
            },
            None => None,
        }
    }
}

/// Updates one monitor from the outcome of fetching its page and reports
/// on it. A failed update is part of the report: the line is then that
/// of the monitor as the failure left it.
pub fn update_and_report<M: Stock>(
    monitor: &mut M,
    fetched: Result<String, SimpleError>,
) -> (report: Report)
    ensures
        final(monitor).site() == old(monitor).site(),
        final(monitor).product() == updated(
            old(monitor).site(),
            old(monitor).product(),
            page_of(fetched),
        ).product,
        is_report_of(report, old(monitor).site(), old(monitor).product(), fetched),
{
    let error = match monitor.update(fetched) {
        Ok(_) => None,
        Err(cause) => Some(cause),
    };
    Report { line: monitor.get_status(), error }
}

/// A batch of updates: every monitor was updated from the outcome that
/// stands at its place, and nothing else happened to it; the reports stand
/// in the order of the monitors, one for each.
pub open spec fn is_batch_of<M: Stock>(
    batch: Seq<Report>,
    before: Seq<M>,
    after: Seq<M>,
    fetched: Seq<Result<String, SimpleError>>,
) -> bool {
    &&& after.len() == before.len()
    &&& batch.len() == before.len()
    &&& fetched.len() == before.len()
    &&& forall|i: int|
        0 <= i < before.len() ==> {
            &&& (#[trigger] after[i]).site() == before[i].site()
            &&& after[i].product() == updated(
                before[i].site(),
                before[i].product(),
                page_of(fetched[i]),
            ).product
        }
    &&& forall|i: int|
        0 <= i < before.len() ==> is_report_of(
            #[trigger] batch[i],
            before[i].site(),
            before[i].product(),
            fetched[i],
        )
}

/// In a batch, what happens to one monitor depends on that monitor and the
/// outcome of fetching its page alone: two batches on the same monitors,
/// whose outcomes differ at one place only, leave every other monitor the
/// same and report the same on it. A page that cannot be fetched or read
/// does not touch the rest of the batch.
pub proof fn lemma_batch_isolation<M: Stock>(
    before: Seq<M>,
    place: int,
    first: Seq<Result<String, SimpleError>>,
    first_after: Seq<M>,
    first_batch: Seq<Report>,
    second: Seq<Result<String, SimpleError>>,
    second_after: Seq<M>,
    second_batch: Seq<Report>,
)
    requires
        is_batch_of(first_batch, before, first_after, first),
        is_batch_of(second_batch, before, second_after, second),
        forall|i: int| 0 <= i < before.len() && i != place ==> first[i] == second[i],
    ensures
        forall|i: int|
            0 <= i < before.len() && i != place ==> {
                &&& (#[trigger] first_after[i]).product() == second_after[i].product()
                &&& first_batch[i].line@ == second_batch[i].line@
                &&& first_batch[i].error == second_batch[i].error
            },
{
}

/// Updates every monitor, in order, from the outcome of fetching its page,
/// and reports on each. What happens to one monitor depends on that
/// monitor and its page alone: a failure does not keep the others from
/// being updated.
///
/// The outcomes must pair up with the monitors. Where their numbers
/// differ, nothing is updated and `None` is returned.
pub fn run_all<M: Stock>(
    monitors: &mut Vec<M>,
    fetched: Vec<Result<String, SimpleError>>,
) -> (batch: Option<Vec<Report>>)
    ensures
        batch is Some <==> fetched@.len() == old(monitors)@.len(),
        match batch {
            Some(reports) => is_batch_of(reports@, old(monitors)@, final(monitors)@, fetched@),
            None => final(monitors)@ == old(monitors)@,
        },
{
    if fetched.len() != monitors.len() {
        return None;
    }
    let mut reports: Vec<Report> = Vec::new();
    let mut i: usize = 0;
    for page in pages: fetched.into_iter()
        invariant
            i == pages.index(),
            pages.seq() == fetched@,
            fetched@.len() == old(monitors)@.len(),
            monitors@.len() == old(monitors)@.len(),
            reports@.len() == i,
            forall|j: int| i <= j < monitors@.len() ==> monitors@[j] == old(monitors)@[j],
            forall|j: int|
                0 <= j < i ==> {
                    &&& (#[trigger] monitors@[j]).site() == old(monitors)@[j].site()
                    &&& monitors@[j].product() == updated(
                        old(monitors)@[j].site(),
                        old(monitors)@[j].product(),
                        page_of(fetched@[j]),
                    ).product
                },
            forall|j: int|
                0 <= j < i ==> is_report_of(
                    #[trigger] reports@[j],
                    old(monitors)@[j].site(),
                    old(monitors)@[j].product(),
                    fetched@[j],
                ),
    {
        assert(i < monitors.len());
        let report = update_and_report(&mut monitors[i], page);
        reports.push(report);
        i += 1;
    }
    Some(reports)
}

} // verus!
