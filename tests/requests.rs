use zainpay::bank::BankService;
use zainpay::card::CardService;
use zainpay::engine::{ApiRequest, Engine, JsonField, Method, Payload};
use zainpay::environment::Environment;
use zainpay::model::{CreateZainboxRequest, SettlementAccount, ZainboxInfo};
use zainpay::response::Response;
use zainpay::settlement::SettlementService;
use zainpay::text::{bool_text, decimal_text, join_with_commas, same_text};
use zainpay::virtual_account::VirtualAccountService;
use zainpay::zainbox::ZainboxService;

const KEY: &str = "eyJ0eXAiOiJKV1QiLCJhbGciOiJIUzI1NiJ9";

fn sandbox() -> Engine {
    Engine::new(Environment::Sandbox, KEY).unwrap()
}

fn text(v: &str) -> JsonField {
    JsonField::Text(v.to_string())
}

fn members(req: &ApiRequest) -> Vec<(String, JsonField)> {
    req.payload.clone().unwrap().members
}

fn keyed(pairs: Vec<(&str, JsonField)>) -> Vec<(String, JsonField)> {
    pairs.into_iter().map(|(k, v)| (k.to_string(), v)).collect()
}

#[test]
fn base_urls_of_the_environments() {
    assert_eq!(Environment::Sandbox.base_url(), Some("https://sandbox.zainpay.ng"));
    assert_eq!(Environment::Production.base_url(), Some("https://api.zainpay.ng"));
    assert_eq!(Environment::Localbox.base_url(), None);
}

#[test]
fn engine_for_an_environment_without_url_is_refused() {
    assert!(Engine::new(Environment::Localbox, KEY).is_none());
    let e = Engine::new(Environment::Production, KEY).unwrap();
    assert_eq!(e.base_url, "https://api.zainpay.ng");
    assert_eq!(e.merchant_key, KEY);
}

#[test]
fn url_join_uses_exactly_one_slash() {
    let e = sandbox();
    assert_eq!(e.url_for("bank/list"), "https://sandbox.zainpay.ng/bank/list");
    assert_eq!(e.url_for("/bank/list"), "https://sandbox.zainpay.ng/bank/list");
    assert_eq!(e.url_for("//bank/list"), "https://sandbox.zainpay.ng/bank/list");
    assert_eq!(e.url_for(""), "https://sandbox.zainpay.ng/");
    let trailing = Engine { base_url: "http://localhost:8080//".to_string(), merchant_key: "k".to_string() };
    assert_eq!(trailing.url_for("/x"), "http://localhost:8080/x");
}

#[test]
fn authorization_is_a_bearer_token() {
    assert_eq!(sandbox().authorization(), format!("Bearer {}", KEY));
}

#[test]
fn list_zainboxes_with_status_in_sandbox() {
    let req = ZainboxService::new(sandbox()).list(Some(true));
    assert_eq!(req.method, Method::Get);
    assert_eq!(req.url, "https://sandbox.zainpay.ng/zainbox/list?status=true");
    assert_eq!(req.authorization, format!("Bearer {}", KEY));
    assert!(req.payload.is_none());

    let r = Response::new(
        200,
        Some(r#"{"status":"SUCCESS","code":"00","description":"OK","data":[]}"#.to_string()),
    );
    assert!(r.has_succeeded());
    assert_eq!(r.parse_data::<Vec<serde_json::Value>>(), Some(vec![]));
}

#[test]
fn list_zainboxes_without_status() {
    let service = ZainboxService::new(sandbox());
    assert_eq!(service.list(None).url, "https://sandbox.zainpay.ng/zainbox/list");
    assert_eq!(service.list(Some(false)).url, "https://sandbox.zainpay.ng/zainbox/list?status=false");
}

#[test]
fn create_zainbox_leaves_out_absent_options() {
    let service = ZainboxService::new(sandbox());
    let req = service.create(
        "Shop".to_string(),
        "a@b.ng".to_string(),
        None,
        "https://cb".to_string(),
        None,
        None,
        None,
    );
    assert_eq!(req.method, Method::Post);
    assert_eq!(req.url, "https://sandbox.zainpay.ng/zainbox/create/request");
    assert_eq!(
        members(&req),
        keyed(vec![
            ("name", text("Shop")),
            ("emailNotification", text("a@b.ng")),
            ("callbackUrl", text("https://cb")),
        ])
    );
}

#[test]
fn create_zainbox_joins_tags_and_adds_options() {
    let service = ZainboxService::new(sandbox());
    let req = service.create(
        "Shop".to_string(),
        "a@b.ng".to_string(),
        Some(vec!["x".to_string(), "y".to_string(), "z".to_string()]),
        "https://cb".to_string(),
        Some("desc".to_string()),
        Some("SH".to_string()),
        Some(true),
    );
    assert_eq!(
        members(&req),
        keyed(vec![
            ("name", text("Shop")),
            ("emailNotification", text("a@b.ng")),
            ("callbackUrl", text("https://cb")),
            ("tags", text("x,y,z")),
            ("codeNamePrefix", text("SH")),
            ("description", text("desc")),
            ("allowAutoInternalTransfer", JsonField::Flag(true)),
        ])
    );
}

#[test]
fn create_request_payload() {
    let req = CreateZainboxRequest {
        name: "n".to_string(),
        email_notification: "e".to_string(),
        callback_url: "c".to_string(),
        tags: None,
        description: Some("d".to_string()),
        code_name_prefix: None,
        allow_auto_internal_transfer: Some(false),
    };
    assert_eq!(
        req.to_payload().members,
        keyed(vec![
            ("name", text("n")),
            ("emailNotification", text("e")),
            ("callbackUrl", text("c")),
            ("description", text("d")),
            ("allowAutoInternalTransfer", JsonField::Flag(false)),
        ])
    );
}

#[test]
fn update_zainbox_members() {
    let service = ZainboxService::new(sandbox());
    let req = service.update(
        "Shop".to_string(),
        None,
        Some(vec!["solo".to_string()]),
        Some("https://cb".to_string()),
        None,
        None,
        "ZB1".to_string(),
        Some(false),
    );
    assert_eq!(req.method, Method::Patch);
    assert_eq!(req.url, "https://sandbox.zainpay.ng/zainbox/update");
    assert_eq!(
        members(&req),
        keyed(vec![
            ("codeName", text("ZB1")),
            ("name", text("Shop")),
            ("tags", text("solo")),
            ("callbackUrl", text("https://cb")),
            ("status", JsonField::Flag(false)),
        ])
    );
}

#[test]
fn zainbox_reports() {
    let service = ZainboxService::new(sandbox());
    assert_eq!(
        service.get_zainbox_profile("ZB1".to_string()).url,
        "https://sandbox.zainpay.ng/zainbox/profile/ZB1"
    );
    assert_eq!(
        service
            .get_total_payment_collected_by_zainbox("ZB1".to_string(), Some("2024-01-01".to_string()), None)
            .url,
        "https://sandbox.zainpay.ng/zainbox/transfer/deposit/summary/ZB1?dateFrom=2024-01-01"
    );
    assert_eq!(
        service.get_total_payment_collected_for_all_zainboxes(None, None).url,
        "https://sandbox.zainpay.ng/zainbox/transactions/summary?"
    );
}

#[test]
fn zainbox_history_counts() {
    let service = ZainboxService::new(sandbox());
    let req = service.get_zainbox_txn_history(
        "ZB1".to_string(),
        None,
        None,
        None,
        Some("deposit".to_string()),
        None,
        Some("123".to_string()),
    );
    assert_eq!(
        req.url,
        "https://sandbox.zainpay.ng/zainbox/transactions/ZB1/20?txnType=deposit&accountNumber=123"
    );
    let req = service.get_all_zainboxes_txn_history(Some(5), None, None, None, None, None);
    assert_eq!(req.url, "https://sandbox.zainpay.ng/zainbox/transactions?count=5&");
}

#[test]
fn bank_requests() {
    let service = BankService::new(sandbox());
    assert_eq!(service.get_bank_list().url, "https://sandbox.zainpay.ng/bank/list");
    assert_eq!(
        service.make_account_name_enquiry("058".to_string(), "0123456789".to_string()).url,
        "https://sandbox.zainpay.ng/bank/name-enquiry?bankCode=058&accountNumber=0123456789"
    );
    assert_eq!(
        service.verify_transfer("T1".to_string()).url,
        "https://sandbox.zainpay.ng/virtual-account/wallet/transaction/verify/T1"
    );
    assert_eq!(
        service.verify_deposit("T1".to_string()).url,
        "https://sandbox.zainpay.ng/virtual-account/wallet/transaction/deposit/verify/T1"
    );
    assert_eq!(
        service.verify_deposit_v2("T1".to_string()).url,
        "https://sandbox.zainpay.ng/virtual-account/wallet/transaction/deposit/verify/v2/T1"
    );
    assert_eq!(
        service.repush_deposit_event("T1".to_string()).url,
        "https://sandbox.zainpay.ng/zainbox/repush/deposit/T1"
    );
}

#[test]
fn fund_transfer_body() {
    let service = BankService::new(sandbox());
    let req = service.make_fund_transfer(
        "111".to_string(),
        "058".to_string(),
        "10000".to_string(),
        "222".to_string(),
        "035".to_string(),
        "ZB1".to_string(),
        "T1".to_string(),
        "rent".to_string(),
        Some("https://cb".to_string()),
    );
    assert_eq!(req.method, Method::Post);
    assert_eq!(req.url, "https://sandbox.zainpay.ng/bank/transfer");
    assert_eq!(
        members(&req),
        keyed(vec![
            ("destinationAccountNumber", text("111")),
            ("destinationBankCode", text("058")),
            ("amount", text("10000")),
            ("sourceAccountNumber", text("222")),
            ("sourceBankCode", text("035")),
            ("zainboxCode", text("ZB1")),
            ("txnRef", text("T1")),
            ("narration", text("rent")),
            ("callbackUrl", text("https://cb")),
        ])
    );
}

#[test]
fn reconcile_bank_deposit_body() {
    let service = BankService::new(sandbox());
    let req = service.reconcile_bank_deposit("depositAccount".to_string(), "gtBank".to_string(), "333".to_string(), None);
    assert_eq!(req.method, Method::Patch);
    assert_eq!(
        req.url,
        "https://sandbox.zainpay.ng/virtual-account/wallet/transaction/reconcile/bank-deposit"
    );
    assert_eq!(
        members(&req),
        keyed(vec![
            ("verificationType", text("depositAccount")),
            ("bankType", text("gtBank")),
            ("accountNumber", text("333")),
        ])
    );
}

#[test]
fn card_requests() {
    let service = CardService::new(sandbox());
    let req = service.initialize_new_payment(
        "500".to_string(),
        "T9".to_string(),
        "a@b.ng".to_string(),
        "0800".to_string(),
        "ZB1".to_string(),
        "https://cb".to_string(),
    );
    assert_eq!(req.url, "https://sandbox.zainpay.ng/zainbox/card/initialize/payment");
    assert_eq!(
        members(&req),
        keyed(vec![
            ("amount", text("500")),
            ("txnRef", text("T9")),
            ("emailAddress", text("a@b.ng")),
            ("mobileNumber", text("0800")),
            ("zainboxCode", text("ZB1")),
            ("callbackUrl", text("https://cb")),
        ])
    );
    assert_eq!(
        service.verify_card_payment("T9".to_string()).url,
        "https://sandbox.zainpay.ng/virtual-account/wallet/deposit/verify/T9"
    );
    assert_eq!(
        service.verify_card_payment_v2("T9".to_string()).url,
        "https://sandbox.zainpay.ng/virtual-account/wallet/deposit/verify/v2/T9"
    );
    assert_eq!(
        service.reconcile_card_payment("T9".to_string()).url,
        "https://sandbox.zainpay.ng/virtual-account/wallet/transaction/reconcile/card-payment?txnRef=T9"
    );
    assert_eq!(
        service
            .get_zainbox_card_payment_txn_history("ZB1".to_string(), None, None, None, Some("a@b.ng".to_string()), None, None)
            .url,
        "https://sandbox.zainpay.ng/zainbox/card/transactions/ZB1?count=10&email=a%40b.ng"
    );
}

#[test]
fn virtual_account_requests() {
    let service = VirtualAccountService::new(sandbox());
    let req = service.create(
        "wemaBank".to_string(),
        "222".to_string(),
        "Ada".to_string(),
        "Obi".to_string(),
        "ada@x.ng".to_string(),
        "0801".to_string(),
        "01-01-1990".to_string(),
        "F".to_string(),
        "Lagos".to_string(),
        "Ms".to_string(),
        "Lagos".to_string(),
        "ZB1".to_string(),
    );
    assert_eq!(req.url, "https://sandbox.zainpay.ng/virtual-account/create/request");
    assert_eq!(members(&req).len(), 12);
    assert_eq!(members(&req)[1], ("firstName".to_string(), text("Ada")));
    assert_eq!(members(&req)[2], ("bvn".to_string(), text("222")));
    assert_eq!(
        service.get_viirtual_account_balance("999".to_string()).url,
        "https://sandbox.zainpay.ng/virtual-account/wallet/balance/999"
    );
    assert_eq!(
        service.get_all_virtual_accounts_balance_for_zainbox("ZB1".to_string()).url,
        "https://sandbox.zainpay.ng/zainbox/accounts/balance/ZB1"
    );
    assert_eq!(
        service.get_all_virtual_accounts_for_zainbox("ZB1".to_string()).url,
        "https://sandbox.zainpay.ng/zainbox/virtual-accounts/ZB1"
    );
    let req = service.change_virtual_account_status("ZB1".to_string(), "999".to_string(), false);
    assert_eq!(req.method, Method::Patch);
    assert_eq!(req.url, "https://sandbox.zainpay.ng/virtual-account/change/account/status");
    assert_eq!(
        members(&req),
        keyed(vec![
            ("zainboxCode", text("ZB1")),
            ("accountNumber", text("999")),
            ("status", JsonField::Flag(false)),
        ])
    );
    assert_eq!(
        service
            .get_virtual_account_txn_history("999".to_string(), Some(7), None, Some("2024-03-01".to_string()), None, Some("card".to_string()))
            .url,
        "https://sandbox.zainpay.ng/virtual-account/wallet/transactions/999/7?dateTo=2024-03-01&paymentChannel=card"
    );
}

#[test]
fn settlement_requests() {
    let service = SettlementService::new(sandbox());
    let account = SettlementService::settlement_account_payload("123".to_string(), "058".to_string(), "50".to_string());
    assert_eq!(account.account_number(), "123");
    assert_eq!(account.bank_code(), "058");
    assert_eq!(account.percentage(), "50");
    let req = service.create_or_update_zainbox_settlemet(
        "weekly".to_string(),
        "ZB1".to_string(),
        "Weekly".to_string(),
        "Monday".to_string(),
        vec![account.clone()],
        true,
    );
    assert_eq!(req.url, "https://sandbox.zainpay.ng/zainbox/settlement");
    assert_eq!(
        members(&req),
        keyed(vec![
            ("name", text("weekly")),
            ("zainboxCode", text("ZB1")),
            ("scheduleType", text("Weekly")),
            ("schedulePeriod", text("Monday")),
            ("settlementAccountList", JsonField::Accounts(vec![account])),
            ("status", JsonField::Flag(true)),
        ])
    );
    assert_eq!(
        service.get_settlement_info_for_zainbox("ZB1".to_string()).url,
        "https://sandbox.zainpay.ng/zainbox/settlement?zainboxCode=ZB1"
    );
    assert_eq!(
        service
            .get_settlement_payment_history_for_zainbox("ZB1".to_string(), None, None, None, Some("done".to_string()))
            .url,
        "https://sandbox.zainpay.ng/zainbox/settlement/history/ZB1?20&status=done"
    );
}

#[test]
fn settlement_account_new() {
    let a = SettlementAccount::new("1".to_string(), "2".to_string(), "33.5".to_string());
    assert_eq!(a.account_number(), "1");
    assert_eq!(a.percentage(), "33.5");
}

#[test]
fn payload_builder() {
    let mut p = Payload::new();
    assert!(p.members.is_empty());
    p.push_opt_text("a", None);
    p.push_opt_flag("b", None);
    p.push_opt_text("c", Some("x".to_string()));
    p.push_opt_flag("d", Some(true));
    assert_eq!(p.members, keyed(vec![("c", text("x")), ("d", JsonField::Flag(true))]));
}

#[test]
fn text_helpers() {
    assert_eq!(decimal_text(0), "0");
    assert_eq!(decimal_text(20), "20");
    assert_eq!(decimal_text(u32::MAX), "4294967295");
    assert_eq!(bool_text(true), "true");
    assert_eq!(bool_text(false), "false");
    assert_eq!(join_with_commas(&vec![]), "");
    assert_eq!(join_with_commas(&vec!["a".to_string()]), "a");
    assert_eq!(join_with_commas(&vec!["a".to_string(), "".to_string(), "c".to_string()]), "a,,c");
    assert!(same_text("00", "00"));
    assert!(!same_text("00", "000"));
    assert!(!same_text("01", "00"));
}

#[test]
fn zainbox_info_holds_its_fields() {
    let info = ZainboxInfo {
        name: "Shop".to_string(),
        codeName: "ZB1".to_string(),
        callbackUrl: "https://cb".to_string(),
        isActive: true,
    };
    assert_eq!(info.clone(), info);
    assert!(info.isActive);
}
