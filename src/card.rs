use vstd::prelude::*;
use vstd::string::*;
use crate::engine::{request_to, ApiRequest, Engine, EngineView, FieldValue, Method, Payload};
use crate::filter::{filter_query, FilterUtil};
use crate::text::{count_or, decimal, decimal_text};

verus! {

/// The members of the body that starts a card payment.
pub open spec fn card_payment_members(
    amount: Seq<char>,
    txn_ref: Seq<char>,
    email_address: Seq<char>,
    mobile_number: Seq<char>,
    zainbox_code: Seq<char>,
    callback_url: Seq<char>,
) -> Seq<(Seq<char>, FieldValue)> {
    seq![
        ("amount"@, FieldValue::Text(amount)),
        ("txnRef"@, FieldValue::Text(txn_ref)),
        ("emailAddress"@, FieldValue::Text(email_address)),
        ("mobileNumber"@, FieldValue::Text(mobile_number)),
        ("zainboxCode"@, FieldValue::Text(zainbox_code)),
        ("callbackUrl"@, FieldValue::Text(callback_url)),
    ]
}

/// The card payment endpoints.
pub struct CardService {
    engine: Engine,
}

impl View for CardService {
    type V = EngineView;

    closed spec fn view(&self) -> EngineView {
        self.engine@
    }
}

impl CardService {
    pub fn new(engine: Engine) -> (r: Self)
        ensures
            r@ == engine@,
    {
        CardService { engine }
    }

    /// Starts a card payment into a zainbox.
    pub fn initialize_new_payment(
        &self,
        amount: String,
        txn_ref: String,
        email_address: String,
        mobile_number: String,
        zainbox_code: String,
        callback_url: String,
    ) -> (r: ApiRequest)
        ensures
            r@ == request_to(
                self@,
                Method::Post,
                "zainbox/card/initialize/payment"@,
                Some(
                    card_payment_members(
                        amount@,
                        txn_ref@,
                        email_address@,
                        mobile_number@,
                        zainbox_code@,
                        callback_url@,
                    ),
                ),
            ),
    {
        let ghost members = card_payment_members(
            amount@,
            txn_ref@,
            email_address@,
            mobile_number@,
            zainbox_code@,
            callback_url@,
        );
        let mut p = Payload::new();
        p.push_text("amount", amount);
        p.push_text("txnRef", txn_ref);
        p.push_text("emailAddress", email_address);
        p.push_text("mobileNumber", mobile_number);
        p.push_text("zainboxCode", zainbox_code);
        p.push_text("callbackUrl", callback_url);
        assert(p@ =~= members);
        self.engine.post("zainbox/card/initialize/payment", p)
    }

    /// The state of a card payment.
    pub fn verify_card_payment(&self, txn_ref: String) -> (r: ApiRequest)
        ensures
            r@ == request_to(
                self@,
                Method::Get,
                "virtual-account/wallet/deposit/verify/"@ + txn_ref@,
                None,
            ),
    {
        let mut path = String::from_str("virtual-account/wallet/deposit/verify/");
        path.append(txn_ref.as_str());
        self.engine.get(path.as_str())
    }

    /// The state of a card payment, second version of the endpoint.
    pub fn verify_card_payment_v2(&self, txn_ref: String) -> (r: ApiRequest)
        ensures
            r@ == request_to(
                self@,
                Method::Get,
                "virtual-account/wallet/deposit/verify/v2/"@ + txn_ref@,
                None,
            ),
    {
        let mut path = String::from_str("virtual-account/wallet/deposit/verify/v2/");
        path.append(txn_ref.as_str());
        self.engine.get(path.as_str())
    }

    /// Reconciles a card payment.
    pub fn reconcile_card_payment(&self, txn_ref: String) -> (r: ApiRequest)
        ensures
            r@ == request_to(
                self@,
                Method::Get,
                "virtual-account/wallet/transaction/reconcile/card-payment?txnRef="@ + txn_ref@,
                None,
            ),
    {
        let mut path = String::from_str(
            "virtual-account/wallet/transaction/reconcile/card-payment?txnRef=",
        );
        path.append(txn_ref.as_str());
        self.engine.get(path.as_str())
    }

    /// The card payments into a zainbox; 10 unless a count is given.
    pub fn get_zainbox_card_payment_txn_history(
        &self,
        zainbox_code: String,
        count: Option<u32>,
        date_from: Option<String>,
        date_to: Option<String>,
        email: Option<String>,
        status: Option<String>,
        txn_ref: Option<String>,
    ) -> (r: ApiRequest)
        ensures
            r@ == request_to(
                self@,
                Method::Get,
                "zainbox/card/transactions/"@ + zainbox_code@ + "?count="@ + decimal(
                    count_or(count, 10),
                ) + "&"@ + filter_query(
                    date_from,
                    date_to,
                    email,
                    status,
                    txn_ref,
                    None,
                    None,
                    None,
                ),
                None,
            ),
    {
        let n: u32 = match count {
            Some(c) => c,
            None => 10,
        };
        let query = FilterUtil::construct_filter_params(
            date_from,
            date_to,
            email,
            status,
            txn_ref,
            None,
            None,
            None,
        );
        let mut path = String::from_str("zainbox/card/transactions/");
        path.append(zainbox_code.as_str());
        path.append("?count=");
        path.append(decimal_text(n).as_str());
        path.append("&");
        path.append(query.as_str());
        self.engine.get(path.as_str())
    }
}

} // verus!
