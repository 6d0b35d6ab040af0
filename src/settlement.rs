use vstd::prelude::*;
use vstd::string::*;
use crate::engine::{request_to, ApiRequest, Engine, EngineView, FieldValue, JsonField, Method, Payload};
use crate::filter::{filter_query, FilterUtil};
use crate::model::{AccountView, SettlementAccount};
use crate::text::{count_or, decimal, decimal_text};

verus! {

/// The members of the body that schedules a settlement.
pub open spec fn settlement_members(
    name: Seq<char>,
    zainbox_code: Seq<char>,
    schedule_type: Seq<char>,
    schedule_period: Seq<char>,
    accounts: Seq<AccountView>,
    status: bool,
) -> Seq<(Seq<char>, FieldValue)> {
    seq![
        ("name"@, FieldValue::Text(name)),
        ("zainboxCode"@, FieldValue::Text(zainbox_code)),
        ("scheduleType"@, FieldValue::Text(schedule_type)),
        ("schedulePeriod"@, FieldValue::Text(schedule_period)),
        ("settlementAccountList"@, FieldValue::Accounts(accounts)),
        ("status"@, FieldValue::Flag(status)),
    ]
}

/// The settlement endpoints: scheduling payouts and reporting on them.
pub struct SettlementService {
    engine: Engine,
}

impl View for SettlementService {
    type V = EngineView;

    closed spec fn view(&self) -> EngineView {
        self.engine@
    }
}

impl SettlementService {
    pub fn new(engine: Engine) -> (r: Self)
        ensures
            r@ == engine@,
    {
        SettlementService { engine }
    }

    /// Creates or replaces the scheduled settlement of a zainbox.
    pub fn create_or_update_zainbox_settlemet(
        &self,
        name: String,
        zainbox_code: String,
        schedule_type: String,
        schedule_period: String,
        settlement_account_list: Vec<SettlementAccount>,
        status: bool,
    ) -> (r: ApiRequest)
        ensures
            r@ == request_to(
                self@,
                Method::Post,
                "zainbox/settlement"@,
                Some(
                    settlement_members(
                        name@,
                        zainbox_code@,
                        schedule_type@,
                        schedule_period@,
                        settlement_account_list@.map_values(|a: SettlementAccount| a@),
                        status,
                    ),
                ),
            ),
    {
        let ghost members = settlement_members(
            name@,
            zainbox_code@,
            schedule_type@,
            schedule_period@,
            settlement_account_list@.map_values(|a: SettlementAccount| a@),
            status,
        );
        let mut p = Payload::new();
        p.push_text("name", name);
        p.push_text("zainboxCode", zainbox_code);
        p.push_text("scheduleType", schedule_type);
        p.push_text("schedulePeriod", schedule_period);
        p.push("settlementAccountList", JsonField::Accounts(settlement_account_list));
        p.push_flag("status", status);
        assert(p@ =~= members);
        self.engine.post("zainbox/settlement", p)
    }

    /// The settlements tied to a zainbox.
    pub fn get_settlement_info_for_zainbox(&self, zainbox_code: String) -> (r: ApiRequest)
        ensures
            r@ == request_to(
                self@,
                Method::Get,
                "zainbox/settlement?zainboxCode="@ + zainbox_code@,
                None,
            ),
    {
        let mut path = String::from_str("zainbox/settlement?zainboxCode=");
        path.append(zainbox_code.as_str());
        self.engine.get(path.as_str())
    }

    /// The settlement payouts of a zainbox; 20 unless a count is given.
    pub fn get_settlement_payment_history_for_zainbox(
        &self,
        zainbox_code: String,
        count: Option<u32>,
        date_from: Option<String>,
        date_to: Option<String>,
        status: Option<String>,
    ) -> (r: ApiRequest)
        ensures
            r@ == request_to(
                self@,
                Method::Get,
                "zainbox/settlement/history/"@ + zainbox_code@ + "?"@ + decimal(count_or(count, 20))
                    + "&"@ + filter_query(
                    date_from,
                    date_to,
                    None,
                    status,
                    None,
                    None,
                    None,
                    None,
                ),
                None,
            ),
    {
        let n: u32 = match count {
            Some(c) => c,
            None => 20,
        };
        let query = FilterUtil::construct_filter_params(
            date_from,
            date_to,
            None,
            status,
            None,
            None,
            None,
            None,
        );
        let mut path = String::from_str("zainbox/settlement/history/");
        path.append(zainbox_code.as_str());
        path.append("?");
        path.append(decimal_text(n).as_str());
        path.append("&");
        path.append(query.as_str());
        self.engine.get(path.as_str())
    }

    /// A settlement destination; the percentage is given written out as
    /// text.
    pub fn settlement_account_payload(account_number: String, bank_code: String, percentage: String) -> (r:
        SettlementAccount)
        ensures
            r@ == (AccountView {
                account_number: account_number@,
                bank_code: bank_code@,
                percentage: percentage@,
            }),
    {
        SettlementAccount::new(account_number, bank_code, percentage)
    }
}

} // verus!
