use mpesa::http::{Authorization, HttpReply, HttpRequest, Method};
use mpesa::services::{DynamicQR, DynamicQRRequest, DynamicQRResponse};
use mpesa::wire::{WireField, WireObject, WireValue};
use mpesa::{
    ApiError, AuthFailure, BuilderError, Environment, Mpesa, MpesaError, TransactionType,
};

fn text(key: &str, value: &str) -> WireField {
    WireField { key: key.to_string(), value: WireValue::Text(value.to_string()) }
}

fn object(fields: Vec<WireField>) -> WireObject {
    WireObject { fields }
}

fn token_reply(token: &str) -> HttpReply {
    HttpReply::Response {
        status: 200,
        body: Some(object(vec![text("access_token", token), text("expires_in", "3599")])),
    }
}

fn authenticated_client() -> Mpesa {
    let mut client = Mpesa::new(
        "CLIENT_KEY".to_string(),
        "CLIENT_SECRET".to_string(),
        Environment::Sandbox,
    );
    let token = client.complete_auth(token_reply("dummy_access_token")).unwrap();
    assert_eq!(token, "dummy_access_token");
    client
}

fn sample_response_body() -> WireObject {
    object(vec![
        text("QRCode", "A3F7B1H"),
        text("ResponseDescription", "Accept the service request successfully."),
        text("ResponseCode", "0"),
    ])
}

fn expected_post() -> HttpRequest {
    HttpRequest {
        method: Method::Post,
        url: "https://sandbox.safaricom.co.ke/mpesa/qrcode/v1/generate".to_string(),
        authorization: Authorization::Bearer { token: "dummy_access_token".to_string() },
        body: Some(object(vec![
            text("MerchantName", "SafaricomLTD"),
            text("RefNo", "rf38f04"),
            WireField { key: "Amount".to_string(), value: WireValue::Number(2000) },
            text("TrxCode", "BG"),
            text("CPI", "17408"),
            text("Size", "300"),
        ])),
    }
}

#[test]
fn builder_pattern_gives_the_exchange_and_reads_the_reply() {
    let client = authenticated_client();

    let request = client
        .dynamic_qr()
        .amount(2000)
        .credit_party_identifier("17408")
        .merchant_name("SafaricomLTD")
        .ref_no("rf38f04")
        .size("300")
        .try_transaction_type("BG")
        .unwrap()
        .build()
        .unwrap()
        .send()
        .unwrap();
    assert_eq!(request, expected_post());

    let response = DynamicQRResponse::from_reply(HttpReply::Response {
        status: 200,
        body: Some(sample_response_body()),
    })
    .unwrap();

    assert_eq!(
        response.response_description,
        "Accept the service request successfully."
    );
    assert_eq!(response.response_code, "0");
}

#[test]
fn struct_initialization_gives_the_exchange_and_reads_the_reply() {
    let client = authenticated_client();

    let request = DynamicQRRequest {
        amount: 2000,
        credit_party_identifier: "17408",
        merchant_name: "SafaricomLTD",
        ref_no: "rf38f04",
        size: "300",
        transaction_type: "BG".try_into().unwrap(),
    };

    let post = DynamicQR::from_request(&client, request).send().unwrap();
    assert_eq!(post, expected_post());

    let response = DynamicQRResponse::from_reply(HttpReply::Response {
        status: 200,
        body: Some(sample_response_body()),
    })
    .unwrap();

    assert_eq!(
        response.response_description,
        "Accept the service request successfully."
    );
    assert_eq!(response.response_code, "0");
}

#[test]
fn round_trip_yields_the_decoded_response() {
    let client = authenticated_client();
    let post = client
        .dynamic_qr()
        .merchant_name("SafaricomLTD")
        .ref_no("rf38f04")
        .amount(2000)
        .transaction_type(TransactionType::BuyGoods)
        .credit_party_identifier("17408")
        .size("300")
        .build()
        .unwrap()
        .send()
        .unwrap();
    let body = post.body.unwrap();
    assert_eq!(body.get("TrxCode"), Some(&WireValue::Text("BG".to_string())));
    assert_eq!(body.get("Amount"), Some(&WireValue::Number(2000)));
    assert_eq!(body.text("MerchantName"), Some("SafaricomLTD".to_string()));
    assert_eq!(body.text("RefNo"), Some("rf38f04".to_string()));
    assert_eq!(body.text("CPI"), Some("17408".to_string()));
    assert_eq!(body.text("Size"), Some("300".to_string()));

    let response = DynamicQRResponse::from_reply(HttpReply::Response {
        status: 200,
        body: Some(object(vec![
            text("QRCode", "A3F7B1H"),
            text("ResponseCode", "0"),
            text("ResponseDescription", "Accept the service request successfully."),
        ])),
    })
    .unwrap();
    assert_eq!(
        response,
        DynamicQRResponse {
            qr_code: "A3F7B1H".to_string(),
            response_code: "0".to_string(),
            response_description: "Accept the service request successfully.".to_string(),
        }
    );
}

#[test]
fn every_valid_code_is_accepted_and_reaches_the_wire() {
    let client = authenticated_client();
    for code in ["BG", "PB", "WA", "SM", "SB"] {
        let post = client
            .dynamic_qr()
            .merchant_name("SafaricomLTD")
            .ref_no("rf38f04")
            .amount(1)
            .credit_party_identifier("17408")
            .size("300")
            .try_transaction_type(code)
            .unwrap()
            .build()
            .unwrap()
            .send()
            .unwrap();
        assert_eq!(post.body.unwrap().text("TrxCode"), Some(code.to_string()));
    }
}

#[test]
fn invalid_code_fails_the_setter_at_once() {
    let client = authenticated_client();
    let codes =
        ["", "B", "XX", "BGG", "B G", "GB", "bg", "Bg", "bG", "sb", "\u{212a}G", "B\u{e9}"];
    for code in codes {
        let failed = client
            .dynamic_qr()
            .merchant_name("SafaricomLTD")
            .ref_no("rf38f04")
            .amount(2000)
            .credit_party_identifier("17408")
            .size("300")
            .try_transaction_type(code);
        assert_eq!(
            failed.err(),
            Some(MpesaError::BuilderError(BuilderError::ValidationError("transaction_type")))
        );
    }
}

#[test]
fn build_names_the_field_that_was_never_set() {
    let client = authenticated_client();
    let missing = |error: MpesaError| match error {
        MpesaError::BuilderError(BuilderError::UninitializedField(field)) => field,
        other => panic!("unexpected error: {:?}", other),
    };

    let builder = client.dynamic_qr();
    assert_eq!(missing(builder.clone().build().err().unwrap()), "merchant_name");
    let builder = builder.merchant_name("SafaricomLTD");
    assert_eq!(missing(builder.clone().build().err().unwrap()), "amount");
    let builder = builder.amount(2000);
    assert_eq!(missing(builder.clone().build().err().unwrap()), "ref_no");
    let builder = builder.ref_no("rf38f04");
    assert_eq!(missing(builder.clone().build().err().unwrap()), "transaction_type");
    let builder = builder.transaction_type(TransactionType::PayBill);
    assert_eq!(missing(builder.clone().build().err().unwrap()), "credit_party_identifier");
    let builder = builder.credit_party_identifier("17408");
    assert_eq!(missing(builder.clone().build().err().unwrap()), "size");
    let builder = builder.size("300");

    let built: DynamicQRRequest = builder.build().unwrap().into();
    assert_eq!(
        built,
        DynamicQRRequest {
            merchant_name: "SafaricomLTD",
            ref_no: "rf38f04",
            amount: 2000,
            transaction_type: TransactionType::PayBill,
            credit_party_identifier: "17408",
            size: "300",
        }
    );
}

#[test]
fn build_reports_the_first_missing_field_whatever_the_order_of_setters() {
    let client = authenticated_client();
    let error = client.dynamic_qr().size("300").ref_no("rf38f04").build().err();
    assert_eq!(
        error,
        Some(MpesaError::BuilderError(BuilderError::UninitializedField("merchant_name")))
    );
    let error = client
        .dynamic_qr()
        .size("300")
        .merchant_name("SafaricomLTD")
        .amount(0)
        .ref_no("rf38f04")
        .credit_party_identifier("17408")
        .build()
        .err();
    assert_eq!(
        error,
        Some(MpesaError::BuilderError(BuilderError::UninitializedField("transaction_type")))
    );
}

#[test]
fn a_later_setter_overrides_an_earlier_one() {
    let client = authenticated_client();
    let built: DynamicQRRequest = client
        .dynamic_qr()
        .merchant_name("first")
        .merchant_name("second")
        .amount(1)
        .amount(u64::MAX)
        .ref_no("r")
        .transaction_type(TransactionType::SendMoney)
        .try_transaction_type("SB")
        .unwrap()
        .credit_party_identifier("c")
        .size("")
        .build()
        .unwrap()
        .into();
    assert_eq!(built.merchant_name, "second");
    assert_eq!(built.amount, u64::MAX);
    assert_eq!(built.transaction_type, TransactionType::SendToBusiness);
    assert_eq!(built.size, "");
}

#[test]
fn from_request_takes_the_payload_as_it_is() {
    let client = authenticated_client();
    let request = DynamicQRRequest {
        merchant_name: "",
        ref_no: "",
        amount: 0,
        transaction_type: TransactionType::WithdrawCash,
        credit_party_identifier: "",
        size: "not a number",
    };
    let back: DynamicQRRequest = DynamicQR::from_request(&client, request.clone()).into();
    assert_eq!(back, request);
}

#[test]
fn an_unconvertible_code_fails_where_it_is_converted() {
    let converted: Result<TransactionType, MpesaError> = "zz".try_into();
    assert_eq!(
        converted,
        Err(MpesaError::BuilderError(BuilderError::ValidationError("transaction_type")))
    );
    for kind in [
        TransactionType::BuyGoods,
        TransactionType::PayBill,
        TransactionType::WithdrawCash,
        TransactionType::SendMoney,
        TransactionType::SendToBusiness,
    ] {
        assert_eq!(TransactionType::try_from(kind.code()), Ok(kind));
    }
}

#[test]
fn send_without_a_cached_token_sends_nothing() {
    let client = Mpesa::new("key".to_string(), "secret".to_string(), Environment::Production);
    let result = client
        .dynamic_qr()
        .merchant_name("SafaricomLTD")
        .ref_no("rf38f04")
        .amount(2000)
        .transaction_type(TransactionType::BuyGoods)
        .credit_party_identifier("17408")
        .size("300")
        .build()
        .unwrap()
        .send();
    assert_eq!(result, Err(MpesaError::AuthenticationError(AuthFailure::MissingToken)));
}

#[test]
fn send_addresses_the_deployment_of_its_client() {
    let mut client = Mpesa::new("key".to_string(), "secret".to_string(), Environment::Production);
    client.complete_auth(token_reply("T")).unwrap();
    let request = DynamicQRRequest {
        merchant_name: "m",
        ref_no: "r",
        amount: 7,
        transaction_type: TransactionType::SendMoney,
        credit_party_identifier: "c",
        size: "1",
    };
    let post = DynamicQR::from_request(&client, request).send().unwrap();
    assert_eq!(post.method, Method::Post);
    assert_eq!(post.url, "https://api.safaricom.co.ke/mpesa/qrcode/v1/generate");
    assert_eq!(post.authorization, Authorization::Bearer { token: "T".to_string() });
}

fn error_body() -> WireObject {
    object(vec![
        text("requestId", "16813-15-1"),
        text("errorCode", "400.002.02"),
        text("errorMessage", "Bad Request - Invalid Amount"),
    ])
}

#[test]
fn status_400_with_an_error_body_yields_the_qr_error() {
    let result = DynamicQRResponse::from_reply(HttpReply::Response {
        status: 400,
        body: Some(error_body()),
    });
    assert_eq!(
        result,
        Err(MpesaError::MpesaDynamicQrError(ApiError {
            request_id: "16813-15-1".to_string(),
            error_code: "400.002.02".to_string(),
            error_message: "Bad Request - Invalid Amount".to_string(),
        }))
    );
}

#[test]
fn a_failure_status_never_yields_a_response() {
    for status in [0u16, 100, 199, 300, 301, 400, 401, 404, 500, 503, u16::MAX] {
        let with_success_body = DynamicQRResponse::from_reply(HttpReply::Response {
            status,
            body: Some(sample_response_body()),
        });
        assert_eq!(with_success_body, Err(MpesaError::DecodingError));
        let without_body =
            DynamicQRResponse::from_reply(HttpReply::Response { status, body: None });
        assert_eq!(without_body, Err(MpesaError::DecodingError));
        let with_error_body = DynamicQRResponse::from_reply(HttpReply::Response {
            status,
            body: Some(error_body()),
        });
        assert!(matches!(with_error_body, Err(MpesaError::MpesaDynamicQrError(_))));
    }
}

#[test]
fn every_success_status_is_read_under_the_response_schema() {
    for status in [200u16, 201, 204, 299] {
        let result = DynamicQRResponse::from_reply(HttpReply::Response {
            status,
            body: Some(sample_response_body()),
        });
        assert_eq!(result.unwrap().qr_code, "A3F7B1H");
        let result = DynamicQRResponse::from_reply(HttpReply::Response {
            status,
            body: Some(error_body()),
        });
        assert_eq!(result, Err(MpesaError::DecodingError));
    }
}

#[test]
fn a_success_body_that_does_not_match_is_a_decoding_error() {
    let missing_code = object(vec![
        text("QRCode", "A3F7B1H"),
        text("ResponseDescription", "Accept the service request successfully."),
    ]);
    let number_for_text = object(vec![
        text("QRCode", "A3F7B1H"),
        WireField { key: "ResponseCode".to_string(), value: WireValue::Number(0) },
        text("ResponseDescription", "Accept the service request successfully."),
    ]);
    let wrong_case = object(vec![
        text("qrcode", "A3F7B1H"),
        text("ResponseCode", "0"),
        text("ResponseDescription", "Accept the service request successfully."),
    ]);
    for body in [Some(missing_code), Some(number_for_text), Some(wrong_case), None] {
        let result = DynamicQRResponse::from_reply(HttpReply::Response { status: 200, body });
        assert_eq!(result, Err(MpesaError::DecodingError));
    }
}

#[test]
fn a_failed_exchange_is_a_transport_error() {
    let result = DynamicQRResponse::from_reply(HttpReply::Failed {
        reason: "connection refused".to_string(),
    });
    assert_eq!(result, Err(MpesaError::TransportError("connection refused".to_string())));
}

#[test]
fn unknown_fields_in_a_reply_are_passed_over() {
    let body = object(vec![
        text("Extra", "x"),
        WireField { key: "Nested".to_string(), value: WireValue::Other },
        text("ResponseCode", "0"),
        text("QRCode", "A3F7B1H"),
        text("ResponseDescription", "ok"),
    ]);
    let response = DynamicQRResponse::from_wire(&body).unwrap();
    assert_eq!(response.qr_code, "A3F7B1H");
    assert_eq!(response.response_code, "0");
    assert_eq!(response.response_description, "ok");
}
