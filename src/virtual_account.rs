use vstd::prelude::*;
use vstd::string::*;
use crate::engine::{request_to, ApiRequest, Engine, EngineView, FieldValue, Method, Payload};
use crate::filter::{filter_query, FilterUtil};
use crate::text::{count_or, decimal, decimal_text};

verus! {

/// The holder's details, the bank and the zainbox of a new virtual account.
pub struct AccountHolder {
    pub bank_type: Seq<char>,
    pub bvn: Seq<char>,
    pub first_name: Seq<char>,
    pub last_name: Seq<char>,
    pub email: Seq<char>,
    pub mobile: Seq<char>,
    pub dob: Seq<char>,
    pub gender: Seq<char>,
    pub address: Seq<char>,
    pub title: Seq<char>,
    pub state: Seq<char>,
    pub zainbox_code: Seq<char>,
}

/// The members of the body that creates a virtual account.
pub open spec fn virtual_account_members(h: AccountHolder) -> Seq<(Seq<char>, FieldValue)> {
    seq![
        ("bankType"@, FieldValue::Text(h.bank_type)),
        ("firstName"@, FieldValue::Text(h.first_name)),
        ("bvn"@, FieldValue::Text(h.bvn)),
        ("lastName"@, FieldValue::Text(h.last_name)),
        ("email"@, FieldValue::Text(h.email)),
        ("mobile"@, FieldValue::Text(h.mobile)),
        ("dob"@, FieldValue::Text(h.dob)),
        ("gender"@, FieldValue::Text(h.gender)),
        ("address"@, FieldValue::Text(h.address)),
        ("title"@, FieldValue::Text(h.title)),
        ("state"@, FieldValue::Text(h.state)),
        ("zainboxCode"@, FieldValue::Text(h.zainbox_code)),
    ]
}

/// The members of the body that switches a virtual account on or off.
pub open spec fn account_status_members(
    zainbox_code: Seq<char>,
    account_number: Seq<char>,
    status: bool,
) -> Seq<(Seq<char>, FieldValue)> {
    seq![
        ("zainboxCode"@, FieldValue::Text(zainbox_code)),
        ("accountNumber"@, FieldValue::Text(account_number)),
        ("status"@, FieldValue::Flag(status)),
    ]
}

/// The virtual account endpoints: creating accounts under a zainbox, their
/// balances, status and transactions.
pub struct VirtualAccountService {
    engine: Engine,
}

impl View for VirtualAccountService {
    type V = EngineView;

    closed spec fn view(&self) -> EngineView {
        self.engine@
    }
}

impl VirtualAccountService {
    pub fn new(engine: Engine) -> (r: Self)
        ensures
            r@ == engine@,
    {
        VirtualAccountService { engine }
    }

    /// Creates a virtual account and maps it to a zainbox.
    pub fn create(
        &self,
        bank_type: String,
        bvn: String,
        first_name: String,
        last_name: String,
        email: String,
        mobile: String,
        dob: String,
        gender: String,
        address: String,
        title: String,
        state: String,
        zainbox_code: String,
    ) -> (r: ApiRequest)
        ensures
            r@ == request_to(
                self@,
                Method::Post,
                "virtual-account/create/request"@,
                Some(
                    virtual_account_members(
                        AccountHolder {
                            bank_type: bank_type@,
                            bvn: bvn@,
                            first_name: first_name@,
                            last_name: last_name@,
                            email: email@,
                            mobile: mobile@,
                            dob: dob@,
                            gender: gender@,
                            address: address@,
                            title: title@,
                            state: state@,
                            zainbox_code: zainbox_code@,
                        },
                    ),
                ),
            ),
    {
        let ghost members = virtual_account_members(
            AccountHolder {
                bank_type: bank_type@,
                bvn: bvn@,
                first_name: first_name@,
                last_name: last_name@,
                email: email@,
                mobile: mobile@,
                dob: dob@,
                gender: gender@,
                address: address@,
                title: title@,
                state: state@,
                zainbox_code: zainbox_code@,
            },
        );
        let mut p = Payload::new();
        p.push_text("bankType", bank_type);
        p.push_text("firstName", first_name);
        p.push_text("bvn", bvn);
        p.push_text("lastName", last_name);
        p.push_text("email", email);
        p.push_text("mobile", mobile);
        p.push_text("dob", dob);
        p.push_text("gender", gender);
        p.push_text("address", address);
        p.push_text("title", title);
        p.push_text("state", state);
        p.push_text("zainboxCode", zainbox_code);
        assert(p@ =~= members);
        self.engine.post("virtual-account/create/request", p)
    }

    /// The wallet balance of a virtual account.
    pub fn get_viirtual_account_balance(&self, account_number: String) -> (r: ApiRequest)
        ensures
            r@ == request_to(
                self@,
                Method::Get,
                "virtual-account/wallet/balance/"@ + account_number@,
                None,
            ),
    {
        let mut path = String::from_str("virtual-account/wallet/balance/");
        path.append(account_number.as_str());
        self.engine.get(path.as_str())
    }

    /// The balances of all the virtual accounts of a zainbox.
    pub fn get_all_virtual_accounts_balance_for_zainbox(&self, zainbox_code: String) -> (r:
        ApiRequest)
        ensures
            r@ == request_to(
                self@,
                Method::Get,
                "zainbox/accounts/balance/"@ + zainbox_code@,
                None,
            ),
    {
        let mut path = String::from_str("zainbox/accounts/balance/");
        path.append(zainbox_code.as_str());
        self.engine.get(path.as_str())
    }

    /// Switches a virtual account on or off.
    pub fn change_virtual_account_status(
        &self,
        zainbox_code: String,
        account_number: String,
        status: bool,
    ) -> (r: ApiRequest)
        ensures
            r@ == request_to(
                self@,
                Method::Patch,
                "virtual-account/change/account/status"@,
                Some(account_status_members(zainbox_code@, account_number@, status)),
            ),
    {
        let ghost members = account_status_members(zainbox_code@, account_number@, status);
        let mut p = Payload::new();
        p.push_text("zainboxCode", zainbox_code);
        p.push_text("accountNumber", account_number);
        p.push_flag("status", status);
        assert(p@ =~= members);
        self.engine.patch("virtual-account/change/account/status", p)
    }

    /// All the virtual accounts of a zainbox.
    pub fn get_all_virtual_accounts_for_zainbox(&self, zainbox_code: String) -> (r: ApiRequest)
        ensures
            r@ == request_to(
                self@,
                Method::Get,
                "zainbox/virtual-accounts/"@ + zainbox_code@,
                None,
            ),
    {
        let mut path = String::from_str("zainbox/virtual-accounts/");
        path.append(zainbox_code.as_str());
        self.engine.get(path.as_str())
    }

    /// The transactions of a virtual account; 20 unless a count is given.
    pub fn get_virtual_account_txn_history(
        &self,
        account_number: String,
        count: Option<u32>,
        date_from: Option<String>,
        date_to: Option<String>,
        txn_type: Option<String>,
        payment_channel: Option<String>,
    ) -> (r: ApiRequest)
        ensures
            r@ == request_to(
                self@,
                Method::Get,
                "virtual-account/wallet/transactions/"@ + account_number@ + "/"@ + decimal(
                    count_or(count, 20),
                ) + "?"@ + filter_query(
                    date_from,
                    date_to,
                    None,
                    None,
                    None,
                    txn_type,
                    payment_channel,
                    None,
                ),
                None,
            ),
    {
        let n: u32 = match count {
            Some(c) => c,
            None => 20,
        };
        let query = FilterUtil::construct_filter_params(
            date_from,
            date_to,
            None,
            None,
            None,
            txn_type,
            payment_channel,
            None,
        );
        let mut path = String::from_str("virtual-account/wallet/transactions/");
        path.append(account_number.as_str());
        path.append("/");
        path.append(decimal_text(n).as_str());
        path.append("?");
        path.append(query.as_str());
        self.engine.get(path.as_str())
    }
}

} // verus!
