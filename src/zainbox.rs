use vstd::prelude::*;
use vstd::string::*;
use crate::engine::{
    opt_flag_member, opt_text_member, request_to, ApiRequest, Engine, EngineView, FieldValue,
    Method, Payload,
};
use crate::filter::{filter_query, opt_text, FilterUtil};
use crate::model::{create_zainbox_members, CreateZainboxRequest};
use crate::text::{
    bool_text, bool_word, comma_joined, count_or, decimal, decimal_text, join_with_commas, texts,
};

verus! {

/// The tags of a zainbox as sent: joined by commas.
pub open spec fn tags_text(tags: Option<Vec<String>>) -> Option<Seq<char>> {
    match tags {
        Some(list) => Some(comma_joined(texts(list@))),
        None => None,
    }
}

/// The members of the body that updates a zainbox: code and name, then each
/// present option.
pub open spec fn update_zainbox_members(
    name: Seq<char>,
    email_notification: Option<Seq<char>>,
    tags: Option<Seq<char>>,
    callback_url: Option<Seq<char>>,
    description: Option<Seq<char>>,
    allow_auto_internal_transfer: Option<bool>,
    zainbox_code: Seq<char>,
    status: Option<bool>,
) -> Seq<(Seq<char>, FieldValue)> {
    seq![("codeName"@, FieldValue::Text(zainbox_code)), ("name"@, FieldValue::Text(name))]
        + opt_text_member("tags"@, tags) + opt_text_member("callbackUrl"@, callback_url)
        + opt_text_member("emailNotification"@, email_notification) + opt_text_member(
        "description"@,
        description,
    ) + opt_flag_member("allowAutoInternalTransfer"@, allow_auto_internal_transfer)
        + opt_flag_member("status"@, status)
}

fn joined_tags(tags: Option<Vec<String>>) -> (r: Option<String>)
    ensures
        opt_text(r) == tags_text(tags),
{
    match tags {
        Some(list) => Some(join_with_commas(&list)),
        None => None,
    }
}

/// The zainbox endpoints: creating, listing, updating and reporting on
/// zainboxes.
pub struct ZainboxService {
    engine: Engine,
}

impl View for ZainboxService {
    type V = EngineView;

    closed spec fn view(&self) -> EngineView {
        self.engine@
    }
}

impl ZainboxService {
    pub fn new(engine: Engine) -> (r: Self)
        ensures
            r@ == engine@,
    {
        ZainboxService { engine }
    }

    /// Creates a zainbox; tags are sent joined by commas, absent options are
    /// left out.
    pub fn create(
        &self,
        name: String,
        email_notification: String,
        tags: Option<Vec<String>>,
        callback_url: String,
        description: Option<String>,
        code_name_prefix: Option<String>,
        allow_auto_internal_transfer: Option<bool>,
    ) -> (r: ApiRequest)
        ensures
            r@ == request_to(
                self@,
                Method::Post,
                "zainbox/create/request"@,
                Some(
                    create_zainbox_members(
                        name@,
                        email_notification@,
                        callback_url@,
                        tags_text(tags),
                        opt_text(description),
                        opt_text(code_name_prefix),
                        allow_auto_internal_transfer,
                    ),
                ),
            ),
    {
        let request = CreateZainboxRequest {
            name,
            email_notification,
            callback_url,
            tags: joined_tags(tags),
            description,
            code_name_prefix,
            allow_auto_internal_transfer,
        };
        self.engine.post("zainbox/create/request", request.to_payload())
    }

    /// Lists the zainboxes, filtered by active status where one is given.
    pub fn list(&self, status: Option<bool>) -> (r: ApiRequest)
        ensures
            r@ == request_to(
                self@,
                Method::Get,
                match status {
                    Some(s) => "zainbox/list?status="@ + bool_word(s),
                    None => "zainbox/list"@,
                },
                None,
            ),
    {
        match status {
            Some(s) => {
                let mut path = String::from_str("zainbox/list?status=");
                path.append(bool_text(s));
                self.engine.get(path.as_str())
            },
            None => self.engine.get("zainbox/list"),
        }
    }

    /// Updates a zainbox; absent options are left out.
    pub fn update(
        &self,
        name: String,
        email_notification: Option<String>,
        tags: Option<Vec<String>>,
        callback_url: Option<String>,
        description: Option<String>,
        allow_auto_internal_transfer: Option<bool>,
        zainbox_code: String,
        status: Option<bool>,
    ) -> (r: ApiRequest)
        ensures
            r@ == request_to(
                self@,
                Method::Patch,
                "zainbox/update"@,
                Some(
                    update_zainbox_members(
                        name@,
                        opt_text(email_notification),
                        tags_text(tags),
                        opt_text(callback_url),
                        opt_text(description),
                        allow_auto_internal_transfer,
                        zainbox_code@,
                        status,
                    ),
                ),
            ),
    {
        let ghost members = update_zainbox_members(
            name@,
            opt_text(email_notification),
            tags_text(tags),
            opt_text(callback_url),
            opt_text(description),
            allow_auto_internal_transfer,
            zainbox_code@,
            status,
        );
        let mut p = Payload::new();
        p.push_text("codeName", zainbox_code);
        p.push_text("name", name);
        p.push_opt_text("tags", joined_tags(tags));
        p.push_opt_text("callbackUrl", callback_url);
        p.push_opt_text("emailNotification", email_notification);
        p.push_opt_text("description", description);
        p.push_opt_flag("allowAutoInternalTransfer", allow_auto_internal_transfer);
        p.push_opt_flag("status", status);
        assert(p@ =~= members);
        self.engine.patch("zainbox/update", p)
    }

    /// The profile of a zainbox, with its current billing plans.
    pub fn get_zainbox_profile(&self, zainbox_code: String) -> (r: ApiRequest)
        ensures
            r@ == request_to(self@, Method::Get, "zainbox/profile/"@ + zainbox_code@, None),
    {
        let mut path = String::from_str("zainbox/profile/");
        path.append(zainbox_code.as_str());
        self.engine.get(path.as_str())
    }

    /// The total collected by the virtual accounts of a zainbox in a period.
    pub fn get_total_payment_collected_by_zainbox(
        &self,
        zainbox_code: String,
        date_from: Option<String>,
        date_to: Option<String>,
    ) -> (r: ApiRequest)
        ensures
            r@ == request_to(
                self@,
                Method::Get,
                "zainbox/transfer/deposit/summary/"@ + zainbox_code@ + "?"@ + filter_query(
                    date_from,
                    date_to,
                    None,
                    None,
                    None,
                    None,
                    None,
                    None,
                ),
                None,
            ),
    {
        let query = FilterUtil::construct_filter_params(
            date_from,
            date_to,
            None,
            None,
            None,
            None,
            None,
            None,
        );
        let mut path = String::from_str("zainbox/transfer/deposit/summary/");
        path.append(zainbox_code.as_str());
        path.append("?");
        path.append(query.as_str());
        self.engine.get(path.as_str())
    }

    /// The total collected by all the merchant's virtual accounts in a
    /// period.
    pub fn get_total_payment_collected_for_all_zainboxes(
        &self,
        date_from: Option<String>,
        date_to: Option<String>,
    ) -> (r: ApiRequest)
        ensures
            r@ == request_to(
                self@,
                Method::Get,
                "zainbox/transactions/summary?"@ + filter_query(
                    date_from,
                    date_to,
                    None,
                    None,
                    None,
                    None,
                    None,
                    None,
                ),
                None,
            ),
    {
        let query = FilterUtil::construct_filter_params(
            date_from,
            date_to,
            None,
            None,
            None,
            None,
            None,
            None,
        );
        let mut path = String::from_str("zainbox/transactions/summary?");
        path.append(query.as_str());
        self.engine.get(path.as_str())
    }

    /// The transactions of a zainbox; 20 unless a count is given.
    pub fn get_zainbox_txn_history(
        &self,
        zainbox_code: String,
        count: Option<u32>,
        date_from: Option<String>,
        date_to: Option<String>,
        txn_type: Option<String>,
        payment_channel: Option<String>,
        account_number: Option<String>,
    ) -> (r: ApiRequest)
        ensures
            r@ == request_to(
                self@,
                Method::Get,
                "zainbox/transactions/"@ + zainbox_code@ + "/"@ + decimal(count_or(count, 20))
                    + "?"@ + filter_query(
                    date_from,
                    date_to,
                    None,
                    None,
                    None,
                    txn_type,
                    payment_channel,
                    account_number,
                ),
                None,
            ),
    {
        let n: u32 = match count {
            Some(c) => c,
            None => 20,
        };
        let query = FilterUtil::construct_filter_params(
            date_from,
            date_to,
            None,
            None,
            None,
            txn_type,
            payment_channel,
            account_number,
        );
        let mut path = String::from_str("zainbox/transactions/");
        path.append(zainbox_code.as_str());
        path.append("/");
        path.append(decimal_text(n).as_str());
        path.append("?");
        path.append(query.as_str());
        self.engine.get(path.as_str())
    }

    /// The transactions of all zainboxes, newest first; 20 unless a count is
    /// given.
    pub fn get_all_zainboxes_txn_history(
        &self,
        count: Option<u32>,
        date_from: Option<String>,
        date_to: Option<String>,
        txn_type: Option<String>,
        payment_channel: Option<String>,
        account_number: Option<String>,
    ) -> (r: ApiRequest)
        ensures
            r@ == request_to(
                self@,
                Method::Get,
                "zainbox/transactions?count="@ + decimal(count_or(count, 20)) + "&"@
                    + filter_query(
                    date_from,
                    date_to,
                    None,
                    None,
                    None,
                    txn_type,
                    payment_channel,
                    account_number,
                ),
                None,
            ),
    {
        let n: u32 = match count {
            Some(c) => c,
            None => 20,
        };
        let query = FilterUtil::construct_filter_params(
            date_from,
            date_to,
            None,
            None,
            None,
            txn_type,
            payment_channel,
            account_number,
        );
        let mut path = String::from_str("zainbox/transactions?count=");
        path.append(decimal_text(n).as_str());
        path.append("&");
        path.append(query.as_str());
        self.engine.get(path.as_str())
    }
}

} // verus!
