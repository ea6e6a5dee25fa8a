//! Order submission and polling: endpoint addresses, reading of the submission
//! answer, and finding the submitted order among the recent ones.

use crate::constants::{
    CALCULATE_DURATION_URL_PREFIX, CALCULATE_DURATION_URL_SUFFIX, GET_ORDER_RESULT_URL_MIDDLE,
    DURATION_COMPUTING_MARKER, GET_ORDER_RESULT_URL_PREFIX, SUCCESS_CODE,
};
use crate::error::{is_api_error_for, is_transient, map_api_error, IflyrecError};
use crate::model::{SubmitTranscriptionOrderResponse, TranscriptionOrder};
use crate::retry::{run, MAX_ATTEMPTS};
use crate::text::{contains_seq, str_equal};
use crate::upload::is_success_status;
use vstd::prelude::*;

verus! {

/// Address of the duration computation for the file `file_id`.
pub open spec fn duration_url_of(file_id: Seq<char>) -> Seq<char> {
    CALCULATE_DURATION_URL_PREFIX@ + file_id + CALCULATE_DURATION_URL_SUFFIX@
}

/// The address of the duration computation for the file `file_id`.
pub fn duration_url(file_id: &str) -> (r: String)
    ensures
        r@ == duration_url_of(file_id@),
{
    let mut r = String::from_str(CALCULATE_DURATION_URL_PREFIX);
    r.append(file_id);
    r.append(CALCULATE_DURATION_URL_SUFFIX);
    r
}

/// Checks the HTTP status of the duration computation for `file_id`.
pub fn check_duration_status(status: u16, file_id: &str) -> (r: Result<(), IflyrecError>)
    ensures
        r is Ok <==> is_success_status(status),
        r matches Err(e) ==> e matches IflyrecError::DurationCalculationError(m) && m@
            == "Failed to calculate duration for file_id: "@ + file_id@,
{
    if 200 <= status && status <= 299 {
        Ok(())
    } else {
        let mut m = String::from_str("Failed to calculate duration for file_id: ");
        m.append(file_id);
        Err(IflyrecError::DurationCalculationError(m))
    }
}

/// Address of the transcript of the order `order_id` made from the audio `origin_audio_id`.
pub open spec fn order_result_url_of(order_id: Seq<char>, origin_audio_id: Seq<char>) -> Seq<char> {
    GET_ORDER_RESULT_URL_PREFIX@ + order_id + GET_ORDER_RESULT_URL_MIDDLE@ + origin_audio_id
}

/// The address of the transcript of `order`.
pub fn order_result_url(order: &TranscriptionOrder) -> (r: String)
    ensures
        r@ == order_result_url_of(order.order_id@, order.origin_audio_id@),
{
    let mut r = String::from_str(GET_ORDER_RESULT_URL_PREFIX);
    r.append(order.order_id.as_str());
    r.append(GET_ORDER_RESULT_URL_MIDDLE);
    r.append(order.origin_audio_id.as_str());
    r
}

/// The submission answer carries an order id: success code, and a business
/// payload whose success flag is set.
pub open spec fn order_accepted(r: SubmitTranscriptionOrderResponse) -> bool {
    r.code@ == SUCCESS_CODE@ && (r.biz matches Some(b) && b.success)
}

/// Reads the answer to an order submission: the order id when it is accepted; an
/// API error when the code is not the success code; `OrderIdUnavailable` when the
/// code is the success code but the payload is missing or not successful.
pub fn order_id_from_response(resp: &SubmitTranscriptionOrderResponse) -> (r: Result<
    String,
    IflyrecError,
>)
    ensures
        r is Ok <==> order_accepted(*resp),
        r matches Ok(id) ==> id == resp.biz->Some_0.order_id,
        resp.code@ != SUCCESS_CODE@ ==> (r matches Err(e) && is_api_error_for(
            e,
            resp.code@,
            resp.desc@,
        )),
        resp.code@ == SUCCESS_CODE@ && !order_accepted(*resp) ==> r == Err::<String, IflyrecError>(
            IflyrecError::OrderIdUnavailable,
        ),
        r matches Err(e) ==> (is_transient(e) <==> (resp.code@ != SUCCESS_CODE@ && contains_seq(
            resp.desc@,
            DURATION_COMPUTING_MARKER@,
        ))),
{
    if !str_equal(resp.code.as_str(), SUCCESS_CODE) {
        return Err(map_api_error(resp.code.as_str(), resp.desc.as_str()));
    }
    match &resp.biz {
        Some(biz) => {
            if biz.success {
                Ok(biz.order_id.clone())
            } else {
                Err(IflyrecError::OrderIdUnavailable)
            }
        },
        None => Err(IflyrecError::OrderIdUnavailable),
    }
}

/// `orders` lists an order with the id `order_id`.
pub open spec fn lists_order(orders: Seq<TranscriptionOrder>, order_id: Seq<char>) -> bool {
    exists|i: int| 0 <= i < orders.len() && #[trigger] orders[i].order_id@ == order_id
}

/// Position `i` holds the first order of `orders` with the id `order_id`.
pub open spec fn is_first_with_id(orders: Seq<TranscriptionOrder>, order_id: Seq<char>, i: int) -> bool {
    &&& 0 <= i < orders.len()
    &&& orders[i].order_id@ == order_id
    &&& forall|k: int| 0 <= k < i ==> #[trigger] orders[k].order_id@ != order_id
}

/// Takes the first order with the id `order_id` out of `orders`.
pub fn find_order(orders: Vec<TranscriptionOrder>, order_id: &str) -> (r: Option<TranscriptionOrder>)
    ensures
        r is None <==> !lists_order(orders@, order_id@),
        r matches Some(o) ==> exists|i: int| is_first_with_id(orders@, order_id@, i) && o == orders@[i],
{
    let ghost all = orders@;
    let mut list = orders;
    let mut i: usize = 0;
    while i < list.len()
        invariant
            list@ == all,
            all == orders@,
            i <= list.len(),
            forall|k: int| 0 <= k < i ==> #[trigger] all[k].order_id@ != order_id@,
        decreases list.len() - i,
    {
        if str_equal(list[i].order_id.as_str(), order_id) {
            let o = list.remove(i);
            assert(o == all[i as int]);
            assert(is_first_with_id(all, order_id@, i as int));
            assert(lists_order(all, order_id@));

            return Some(o);
        }
        i = i + 1;
    }
    None
}

/// `outcome` is what one poll of `orders` gives for `order_id`: the first order
/// with that id, or, when none is listed, an order-processing error.
pub open spec fn is_poll_outcome(
    orders: Seq<TranscriptionOrder>,
    order_id: Seq<char>,
    outcome: Result<TranscriptionOrder, IflyrecError>,
) -> bool {
    match outcome {
        Ok(o) => exists|i: int| is_first_with_id(orders, order_id, i) && o == orders[i],
        Err(e) => !lists_order(orders, order_id) && e is OrderProcessing,
    }
}

/// One poll: the order `order_id` from the recent `orders`, or an
/// order-processing error while it is not listed.
pub fn poll_order(orders: Vec<TranscriptionOrder>, order_id: &str) -> (r: Result<
    TranscriptionOrder,
    IflyrecError,
>)
    ensures
        is_poll_outcome(orders@, order_id@, r),
{
    match find_order(orders, order_id) {
        Some(o) => Ok(o),
        None => Err(IflyrecError::OrderProcessing(String::from_str("order is still being transcribed"))),
    }
}

/// Polling, when the order is missing from the first `m` listings (`m` below five)
/// and listed in the next, returns the first listed order with its id after
/// exactly `m + 1` polls.
pub proof fn law_poll_finds_listed_order(
    listings: Seq<Seq<TranscriptionOrder>>,
    order_id: Seq<char>,
    outcomes: Seq<Result<TranscriptionOrder, IflyrecError>>,
    m: nat,
)
    requires
        m < MAX_ATTEMPTS,
        m < listings.len(),
        outcomes.len() == listings.len(),
        forall|i: int| 0 <= i < listings.len() ==> is_poll_outcome(#[trigger] listings[i], order_id, outcomes[i]),
        forall|i: int| 0 <= i < m ==> !lists_order(#[trigger] listings[i], order_id),
        lists_order(listings[m as int], order_id),
    ensures
        run(outcomes) == ((m + 1) as nat, Some(outcomes[m as int])),
        outcomes[m as int] matches Ok(o) && exists|i: int| is_first_with_id(listings[m as int], order_id, i)
            && o == listings[m as int][i],
{
    assert forall|i: int| 0 <= i < m implies #[trigger] outcomes[i] is Err && is_transient(outcomes[i]->Err_0) by {
        assert(is_poll_outcome(listings[i], order_id, outcomes[i]));
        assert(!lists_order(listings[i], order_id));
    }
    assert(is_poll_outcome(listings[m as int], order_id, outcomes[m as int]));
    crate::retry::law_success_after_transient_failures(outcomes, (m + 1) as nat);
}

/// Polling an order that is never listed gives up after exactly five polls with
/// an order-processing error.
pub proof fn law_poll_gives_up_on_missing_order(
    listings: Seq<Seq<TranscriptionOrder>>,
    order_id: Seq<char>,
    outcomes: Seq<Result<TranscriptionOrder, IflyrecError>>,
)
    requires
        listings.len() >= MAX_ATTEMPTS,
        outcomes.len() == listings.len(),
        forall|i: int| 0 <= i < listings.len() ==> is_poll_outcome(#[trigger] listings[i], order_id, outcomes[i]),
        forall|i: int| 0 <= i < listings.len() ==> !lists_order(#[trigger] listings[i], order_id),
    ensures
        run(outcomes) == (MAX_ATTEMPTS as nat, Some(outcomes[MAX_ATTEMPTS - 1])),
        outcomes[MAX_ATTEMPTS - 1] matches Err(e) && e is OrderProcessing,
{
    assert forall|i: int| 0 <= i < MAX_ATTEMPTS implies #[trigger] outcomes[i] is Err && is_transient(outcomes[i]->Err_0) by {
        assert(is_poll_outcome(listings[i], order_id, outcomes[i]));
        assert(!lists_order(listings[i], order_id));
    }
    assert(is_poll_outcome(listings[MAX_ATTEMPTS - 1], order_id, outcomes[MAX_ATTEMPTS - 1]));
    crate::retry::law_budget_exhausted(outcomes);
}

} // verus!
