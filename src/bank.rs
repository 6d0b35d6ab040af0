use vstd::prelude::*;
use vstd::string::*;
use crate::engine::{opt_text_member, request_to, ApiRequest, Engine, EngineView, FieldValue, Method, Payload};
use crate::filter::opt_text;

verus! {

/// The members of a fund transfer body: the eight required fields, then the
/// callback URL where one is given.
pub open spec fn transfer_members(
    destination_account_number: Seq<char>,
    destination_bank_code: Seq<char>,
    amount: Seq<char>,
    source_account_number: Seq<char>,
    source_bank_code: Seq<char>,
    zainbox_code: Seq<char>,
    txn_ref: Seq<char>,
    narration: Seq<char>,
    callback_url: Option<Seq<char>>,
) -> Seq<(Seq<char>, FieldValue)> {
    seq![
        ("destinationAccountNumber"@, FieldValue::Text(destination_account_number)),
        ("destinationBankCode"@, FieldValue::Text(destination_bank_code)),
        ("amount"@, FieldValue::Text(amount)),
        ("sourceAccountNumber"@, FieldValue::Text(source_account_number)),
        ("sourceBankCode"@, FieldValue::Text(source_bank_code)),
        ("zainboxCode"@, FieldValue::Text(zainbox_code)),
        ("txnRef"@, FieldValue::Text(txn_ref)),
        ("narration"@, FieldValue::Text(narration)),
    ] + opt_text_member("callbackUrl"@, callback_url)
}

/// The members of a bank deposit reconciliation body.
pub open spec fn reconcile_members(
    verification_type: Seq<char>,
    bank_type: Seq<char>,
    account_number: Seq<char>,
    session_id: Option<Seq<char>>,
) -> Seq<(Seq<char>, FieldValue)> {
    seq![
        ("verificationType"@, FieldValue::Text(verification_type)),
        ("bankType"@, FieldValue::Text(bank_type)),
        ("accountNumber"@, FieldValue::Text(account_number)),
    ] + opt_text_member("sessionId"@, session_id)
}

/// The banking endpoints: bank list, name enquiry, transfers and deposits.
pub struct BankService {
    engine: Engine,
}

impl View for BankService {
    type V = EngineView;

    closed spec fn view(&self) -> EngineView {
        self.engine@
    }
}

impl BankService {
    pub fn new(engine: Engine) -> (r: Self)
        ensures
            r@ == engine@,
    {
        BankService { engine }
    }

    /// The list of available banks.
    pub fn get_bank_list(&self) -> (r: ApiRequest)
        ensures
            r@ == request_to(self@, Method::Get, "bank/list"@, None),
    {
        self.engine.get("bank/list")
    }

    /// The name on a bank account.
    pub fn make_account_name_enquiry(&self, bank_code: String, account_number: String) -> (r:
        ApiRequest)
        ensures
            r@ == request_to(
                self@,
                Method::Get,
                "bank/name-enquiry?bankCode="@ + bank_code@ + "&accountNumber="@ + account_number@,
                None,
            ),
    {
        let mut path = String::from_str("bank/name-enquiry?bankCode=");
        path.append(bank_code.as_str());
        path.append("&accountNumber=");
        path.append(account_number.as_str());
        self.engine.get(path.as_str())
    }

    /// A transfer from a wallet to another wallet or to a bank account; the
    /// amount is in kobo.
    pub fn make_fund_transfer(
        &self,
        destination_account_number: String,
        destination_bank_code: String,
        amount: String,
        source_account_number: String,
        source_bank_code: String,
        zainbox_code: String,
        txn_ref: String,
        narration: String,
        callback_url: Option<String>,
    ) -> (r: ApiRequest)
        ensures
            r@ == request_to(
                self@,
                Method::Post,
                "bank/transfer"@,
                Some(
                    transfer_members(
                        destination_account_number@,
                        destination_bank_code@,
                        amount@,
                        source_account_number@,
                        source_bank_code@,
                        zainbox_code@,
                        txn_ref@,
                        narration@,
                        opt_text(callback_url),
                    ),
                ),
            ),
    {
        let ghost members = transfer_members(
            destination_account_number@,
            destination_bank_code@,
            amount@,
            source_account_number@,
            source_bank_code@,
            zainbox_code@,
            txn_ref@,
            narration@,
            opt_text(callback_url),
        );
        let mut p = Payload::new();
        p.push_text("destinationAccountNumber", destination_account_number);
        p.push_text("destinationBankCode", destination_bank_code);
        p.push_text("amount", amount);
        p.push_text("sourceAccountNumber", source_account_number);
        p.push_text("sourceBankCode", source_bank_code);
        p.push_text("zainboxCode", zainbox_code);
        p.push_text("txnRef", txn_ref);
        p.push_text("narration", narration);
        p.push_opt_text("callbackUrl", callback_url);
        assert(p@ =~= members);
        self.engine.post("bank/transfer", p)
    }

    /// The state of a transfer.
    pub fn verify_transfer(&self, txn_ref: String) -> (r: ApiRequest)
        ensures
            r@ == request_to(
                self@,
                Method::Get,
                "virtual-account/wallet/transaction/verify/"@ + txn_ref@,
                None,
            ),
    {
        let mut path = String::from_str("virtual-account/wallet/transaction/verify/");
        path.append(txn_ref.as_str());
        self.engine.get(path.as_str())
    }

    /// The state of a deposit.
    pub fn verify_deposit(&self, txn_ref: String) -> (r: ApiRequest)
        ensures
            r@ == request_to(
                self@,
                Method::Get,
                "virtual-account/wallet/transaction/deposit/verify/"@ + txn_ref@,
                None,
            ),
    {
        let mut path = String::from_str("virtual-account/wallet/transaction/deposit/verify/");
        path.append(txn_ref.as_str());
        self.engine.get(path.as_str())
    }

    /// The state of a deposit, second version of the endpoint.
    pub fn verify_deposit_v2(&self, txn_ref: String) -> (r: ApiRequest)
        ensures
            r@ == request_to(
                self@,
                Method::Get,
                "virtual-account/wallet/transaction/deposit/verify/v2/"@ + txn_ref@,
                None,
            ),
    {
        let mut path = String::from_str("virtual-account/wallet/transaction/deposit/verify/v2/");
        path.append(txn_ref.as_str());
        self.engine.get(path.as_str())
    }

    /// Sends the event of a deposit to the callback URL again.
    pub fn repush_deposit_event(&self, txn_ref: String) -> (r: ApiRequest)
        ensures
            r@ == request_to(self@, Method::Get, "zainbox/repush/deposit/"@ + txn_ref@, None),
    {
        let mut path = String::from_str("zainbox/repush/deposit/");
        path.append(txn_ref.as_str());
        self.engine.get(path.as_str())
    }

    /// Reconciles a bank deposit; the session id is sent where one is given.
    pub fn reconcile_bank_deposit(
        &self,
        verification_type: String,
        bank_type: String,
        account_number: String,
        session_id: Option<String>,
    ) -> (r: ApiRequest)
        ensures
            r@ == request_to(
                self@,
                Method::Patch,
                "virtual-account/wallet/transaction/reconcile/bank-deposit"@,
                Some(
                    reconcile_members(
                        verification_type@,
                        bank_type@,
                        account_number@,
                        opt_text(session_id),
                    ),
                ),
            ),
    {
        let ghost members = reconcile_members(
            verification_type@,
            bank_type@,
            account_number@,
            opt_text(session_id),
        );
        let mut p = Payload::new();
        p.push_text("verificationType", verification_type);
        p.push_text("bankType", bank_type);
        p.push_text("accountNumber", account_number);
        p.push_opt_text("sessionId", session_id);
        assert(p@ =~= members);
        self.engine.patch("virtual-account/wallet/transaction/reconcile/bank-deposit", p)
    }
}

} // verus!
