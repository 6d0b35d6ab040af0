use vstd::prelude::*;
use crate::engine::{opt_flag_member, opt_text_member, FieldValue, Payload};
use crate::filter::opt_text;

verus! {

/// One zainbox as the listing endpoint describes it.
#[allow(non_snake_case)]
#[derive(Debug, Clone, PartialEq, Eq)]
pub struct ZainboxInfo {
    pub name: String,
    pub codeName: String,
    pub callbackUrl: String,
    pub isActive: bool,
}

/// The settings of a new zainbox; absent options are left out of the
/// request body.
#[derive(Debug, Clone, PartialEq, Eq)]
pub struct CreateZainboxRequest {
    pub name: String,
    pub email_notification: String,
    pub callback_url: String,
    pub tags: Option<String>,
    pub description: Option<String>,
    pub code_name_prefix: Option<String>,
    pub allow_auto_internal_transfer: Option<bool>,
}

/// The members of the body that creates a zainbox: name, notification
/// e-mail and callback URL, then each present option.
pub open spec fn create_zainbox_members(
    name: Seq<char>,
    email_notification: Seq<char>,
    callback_url: Seq<char>,
    tags: Option<Seq<char>>,
    description: Option<Seq<char>>,
    code_name_prefix: Option<Seq<char>>,
    allow_auto_internal_transfer: Option<bool>,
) -> Seq<(Seq<char>, FieldValue)> {
    seq![
        ("name"@, FieldValue::Text(name)),
        ("emailNotification"@, FieldValue::Text(email_notification)),
        ("callbackUrl"@, FieldValue::Text(callback_url)),
    ] + opt_text_member("tags"@, tags) + opt_text_member("codeNamePrefix"@, code_name_prefix)
        + opt_text_member("description"@, description) + opt_flag_member(
        "allowAutoInternalTransfer"@,
        allow_auto_internal_transfer,
    )
}

impl CreateZainboxRequest {
    /// The request body, with the absent options left out.
    pub fn to_payload(self) -> (r: Payload)
        ensures
            r@ == create_zainbox_members(
                self.name@,
                self.email_notification@,
                self.callback_url@,
                opt_text(self.tags),
                opt_text(self.description),
                opt_text(self.code_name_prefix),
                self.allow_auto_internal_transfer,
            ),
    {
        let ghost start = self;
        let mut p = Payload::new();
        p.push_text("name", self.name);
        p.push_text("emailNotification", self.email_notification);
        p.push_text("callbackUrl", self.callback_url);
        p.push_opt_text("tags", self.tags);
        p.push_opt_text("codeNamePrefix", self.code_name_prefix);
        p.push_opt_text("description", self.description);
        p.push_opt_flag("allowAutoInternalTransfer", self.allow_auto_internal_transfer);
        assert(p@ =~= create_zainbox_members(
            start.name@,
            start.email_notification@,
            start.callback_url@,
            opt_text(start.tags),
            opt_text(start.description),
            opt_text(start.code_name_prefix),
            start.allow_auto_internal_transfer,
        ));
        p
    }
}

/// One destination of a scheduled settlement: an account, its bank, and the
/// share of the collected funds that it receives.
#[derive(Debug, Clone, PartialEq, Eq)]
pub struct SettlementAccount {
    account_number: String,
    bank_code: String,
    percentage: String,
}

/// A settlement destination as plain text: account number, bank code,
/// percentage.
pub struct AccountView {
    pub account_number: Seq<char>,
    pub bank_code: Seq<char>,
    pub percentage: Seq<char>,
}

impl View for SettlementAccount {
    type V = AccountView;

    closed spec fn view(&self) -> AccountView {
        AccountView {
            account_number: self.account_number@,
            bank_code: self.bank_code@,
            percentage: self.percentage@,
        }
    }
}

impl SettlementAccount {
    /// A destination; the percentage is given already written out as text.
    pub fn new(account_number: String, bank_code: String, percentage: String) -> (r: Self)
        ensures
            r@ == (AccountView {
                account_number: account_number@,
                bank_code: bank_code@,
                percentage: percentage@,
            }),
    {
        SettlementAccount { account_number, bank_code, percentage }
    }

    pub fn account_number(&self) -> (r: &str)
        ensures
            r@ == self@.account_number,
    {
        self.account_number.as_str()
    }

    pub fn bank_code(&self) -> (r: &str)
        ensures
            r@ == self@.bank_code,
    {
        self.bank_code.as_str()
    }

    pub fn percentage(&self) -> (r: &str)
        ensures
            r@ == self@.percentage,
    {
        self.percentage.as_str()
    }
}

} // verus!
