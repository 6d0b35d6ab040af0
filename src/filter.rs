use vstd::prelude::*;
use vstd::string::*;

verus! {

/// The text that `serde_urlencoded` makes of a sequence of key/value pairs,
/// or `None` where it reports an error.
pub uninterp spec fn form_encoded(pairs: Seq<(Seq<char>, Seq<char>)>) -> Option<Seq<char>>;

/// The views of a sequence of key/value pairs.
pub open spec fn pair_texts(pairs: Seq<(String, String)>) -> Seq<(Seq<char>, Seq<char>)> {
    pairs.map_values(|p: (String, String)| (p.0@, p.1@))
}

/// The view of an optional string.
pub open spec fn opt_text(o: Option<String>) -> Option<Seq<char>> {
    match o {
        Some(s) => Some(s@),
        None => None,
    }
}

/// The pair for one filter: none where the filter is absent.
pub open spec fn filter_entry(key: Seq<char>, value: Option<Seq<char>>) -> Seq<(Seq<char>, Seq<char>)> {
    match value {
        Some(v) => seq![(key, v)],
        None => Seq::empty(),
    }
}

/// The present filters as pairs, in the fixed order dateFrom, dateTo, email,
/// status, txnRef, txnType, paymentChannel, accountNumber.
pub open spec fn present_filters(
    date_from: Option<Seq<char>>,
    date_to: Option<Seq<char>>,
    email: Option<Seq<char>>,
    status: Option<Seq<char>>,
    txn_ref: Option<Seq<char>>,
    txn_type: Option<Seq<char>>,
    payment_channel: Option<Seq<char>>,
    account_number: Option<Seq<char>>,
) -> Seq<(Seq<char>, Seq<char>)> {
    filter_entry("dateFrom"@, date_from) + filter_entry("dateTo"@, date_to) + filter_entry(
        "email"@,
        email,
    ) + filter_entry("status"@, status) + filter_entry("txnRef"@, txn_ref) + filter_entry(
        "txnType"@,
        txn_type,
    ) + filter_entry("paymentChannel"@, payment_channel) + filter_entry(
        "accountNumber"@,
        account_number,
    )
}

/// The query string of the given pairs: their form encoding, or the empty
/// string where the encoder fails.
pub open spec fn query_text(pairs: Seq<(Seq<char>, Seq<char>)>) -> Seq<char> {
    match form_encoded(pairs) {
        Some(s) => s,
        None => Seq::empty(),
    }
}

/// The query string of the eight optional filters.
pub open spec fn filter_query(
    date_from: Option<String>,
    date_to: Option<String>,
    email: Option<String>,
    status: Option<String>,
    txn_ref: Option<String>,
    txn_type: Option<String>,
    payment_channel: Option<String>,
    account_number: Option<String>,
) -> Seq<char> {
    query_text(
        present_filters(
            opt_text(date_from),
            opt_text(date_to),
            opt_text(email),
            opt_text(status),
            opt_text(txn_ref),
            opt_text(txn_type),
            opt_text(payment_channel),
            opt_text(account_number),
        ),
    )
}

/// Relies on `serde_urlencoded::to_string` applied to a sequence of pairs:
/// `key=value` for each pair, percent-encoded and joined by `&`; no pairs
/// give the empty string.
#[verifier::external_body]
fn encode_pairs(pairs: &Vec<(String, String)>) -> (r: Option<String>)
    ensures
        opt_text(r) == form_encoded(pair_texts(pairs@)),
        pairs@.len() == 0 ==> r.is_some() && r.unwrap()@.len() == 0,
{
    serde_urlencoded::to_string(pairs).ok()
}

fn push_filter(pairs: &mut Vec<(String, String)>, key: &str, value: Option<String>)
    ensures
        pair_texts(final(pairs)@) == pair_texts(old(pairs)@) + filter_entry(key@, opt_text(value)),
{
    match value {
        Some(v) => {
            pairs.push((String::from_str(key), v));
        },
        None => {},
    }
    assert(pair_texts(final(pairs)@) =~= pair_texts(old(pairs)@) + filter_entry(key@, opt_text(value)));
}

/// Builds the query string of the optional listing filters.
pub struct FilterUtil;

impl FilterUtil {
    /// The present filters as key/value pairs, in the fixed order; absent
    /// filters contribute nothing.
    pub fn filter_pairs(
        date_from: Option<String>,
        date_to: Option<String>,
        email: Option<String>,
        status: Option<String>,
        txn_ref: Option<String>,
        txn_type: Option<String>,
        payment_channel: Option<String>,
        account_number: Option<String>,
    ) -> (r: Vec<(String, String)>)
        ensures
            pair_texts(r@) == present_filters(
                opt_text(date_from),
                opt_text(date_to),
                opt_text(email),
                opt_text(status),
                opt_text(txn_ref),
                opt_text(txn_type),
                opt_text(payment_channel),
                opt_text(account_number),
            ),
    {
        let ghost views = (
            opt_text(date_from),
            opt_text(date_to),
            opt_text(email),
            opt_text(status),
            opt_text(txn_ref),
            opt_text(txn_type),
            opt_text(payment_channel),
            opt_text(account_number),
        );
        let mut pairs: Vec<(String, String)> = Vec::new();
        assert(pair_texts(pairs@) =~= Seq::empty());
        push_filter(&mut pairs, "dateFrom", date_from);
        push_filter(&mut pairs, "dateTo", date_to);
        push_filter(&mut pairs, "email", email);
        push_filter(&mut pairs, "status", status);
        push_filter(&mut pairs, "txnRef", txn_ref);
        push_filter(&mut pairs, "txnType", txn_type);
        push_filter(&mut pairs, "paymentChannel", payment_channel);
        push_filter(&mut pairs, "accountNumber", account_number);
        assert(pair_texts(pairs@) =~= present_filters(
            views.0,
            views.1,
            views.2,
            views.3,
            views.4,
            views.5,
            views.6,
            views.7,
        ));
        pairs
    }

    /// The URL-encoded query string of the present filters, in the fixed
    /// order; the empty string when every filter is absent.
    pub fn construct_filter_params(
        date_from: Option<String>,
        date_to: Option<String>,
        email: Option<String>,
        status: Option<String>,
        txn_ref: Option<String>,
        txn_type: Option<String>,
        payment_channel: Option<String>,
        account_number: Option<String>,
    ) -> (r: String)
        ensures
            r@ == filter_query(
                date_from,
                date_to,
                email,
                status,
                txn_ref,
                txn_type,
                payment_channel,
                account_number,
            ),
            date_from.is_none() && date_to.is_none() && email.is_none() && status.is_none()
                && txn_ref.is_none() && txn_type.is_none() && payment_channel.is_none()
                && account_number.is_none() ==> r@.len() == 0,
    {
        let pairs = Self::filter_pairs(
            date_from,
            date_to,
            email,
            status,
            txn_ref,
            txn_type,
            payment_channel,
            account_number,
        );
        proof {
            assert(pair_texts(pairs@).len() == pairs@.len());
            if date_from.is_none() && date_to.is_none() && email.is_none() && status.is_none()
                && txn_ref.is_none() && txn_type.is_none() && payment_channel.is_none()
                && account_number.is_none() {
                assert(pair_texts(pairs@) =~= Seq::empty());
            }
        }
        match encode_pairs(&pairs) {
            Some(s) => s,
            None => String::new(),
        }
    }
}

} // verus!
