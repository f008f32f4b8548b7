use revolv3::connector::{Revolv3, Revolv3SupportedPaymentMethods, SupportedPaymentMethodsCell};
use revolv3::enums::{
    CaptureMethod, CardNetwork, ConnectorIntegrationStatus, CurrencyUnit, FeatureStatus,
    HyperswitchConnectorCategory, Operation, PaymentMethod, PaymentMethodType,
};
use revolv3::errors::ConnectorError;
use revolv3::features::{
    CardSpecificFeatures, PaymentMethodDetails, PaymentMethodSpecificFeatures,
};
use revolv3::types::{
    ConnectorAuthType, ConnectorParams, Connectors, IncomingWebhookRequestDetails, Response,
    WebhookContext,
};

fn sample_request<'a>(headers: &'a [(String, String)], body: &'a [u8]) -> IncomingWebhookRequestDetails<'a> {
    IncomingWebhookRequestDetails {
        method: "POST",
        uri: "/webhooks/merchant_1/revolv3",
        headers,
        body,
        query_params: "",
    }
}

fn expected_card_credit() -> PaymentMethodDetails {
    PaymentMethodDetails {
        mandates: FeatureStatus::Supported,
        refunds: FeatureStatus::Supported,
        supported_capture_methods: vec![
            CaptureMethod::Automatic,
            CaptureMethod::Manual,
            CaptureMethod::SequentialAutomatic,
        ],
        specific_features: Some(PaymentMethodSpecificFeatures::Card(CardSpecificFeatures {
            three_ds: FeatureStatus::NotSupported,
            no_three_ds: FeatureStatus::Supported,
            supported_card_networks: vec![
                CardNetwork::Visa,
                CardNetwork::Mastercard,
                CardNetwork::AmericanExpress,
                CardNetwork::Discover,
                CardNetwork::JCB,
                CardNetwork::DinersClub,
                CardNetwork::UnionPay,
            ],
        })),
    }
}

#[test]
fn id_is_revolv3_on_every_call() {
    let connector = Revolv3::new();
    for _ in 0..5 {
        assert_eq!(connector.id(), "revolv3");
    }
    assert_eq!(Revolv3::new().clone().id(), "revolv3");
}

#[test]
fn amounts_are_in_base_units() {
    assert_eq!(Revolv3::new().get_currency_unit(), CurrencyUnit::Base);
    assert_ne!(Revolv3::new().get_currency_unit(), CurrencyUnit::Minor);
}

#[test]
fn content_type_is_json() {
    assert_eq!(Revolv3::new().common_get_content_type(), "application/json");
}

#[test]
fn base_url_is_the_configured_one() {
    let connectors = Connectors {
        revolv3: ConnectorParams { base_url: "https://api.revolv3.com" },
    };
    assert_eq!(Revolv3::new().base_url(&connectors), "https://api.revolv3.com");
}

#[test]
fn base_url_may_be_empty() {
    let connectors = Connectors { revolv3: ConnectorParams { base_url: "" } };
    assert_eq!(Revolv3::new().base_url(&connectors), "");
}

#[test]
fn base_url_outlives_the_settings_record() {
    let configured = String::from("https://sandbox.revolv3.com/");
    let url = {
        let connectors = Connectors { revolv3: ConnectorParams { base_url: configured.as_str() } };
        Revolv3::new().base_url(&connectors)
    };
    assert_eq!(url, "https://sandbox.revolv3.com/");
}

#[test]
fn auth_header_is_empty_for_every_kind_of_credential() {
    let key = |s: &str| s.to_string();
    let credentials = vec![
        ConnectorAuthType::TemporaryAuth,
        ConnectorAuthType::HeaderKey { api_key: key("sk_test_1") },
        ConnectorAuthType::BodyKey { api_key: key("sk_test_1"), key1: key("merchant") },
        ConnectorAuthType::SignatureKey {
            api_key: key("sk_test_1"),
            key1: key("merchant"),
            api_secret: key("secret"),
        },
        ConnectorAuthType::MultiAuthKey {
            api_key: key("sk_test_1"),
            key1: key("merchant"),
            api_secret: key("secret"),
            key2: key("terminal"),
        },
        ConnectorAuthType::CurrencyAuthKey {
            auth_key_map: vec![(key("USD"), key("sk_usd")), (key("EUR"), key("sk_eur"))],
        },
        ConnectorAuthType::CurrencyAuthKey { auth_key_map: Vec::new() },
        ConnectorAuthType::CertificateAuth {
            certificate: key("certificate"),
            private_key: key("private key"),
        },
        ConnectorAuthType::NoKey,
    ];
    for credential in &credentials {
        match Revolv3::new().get_auth_header(credential) {
            Ok(headers) => assert!(headers.is_empty()),
            Err(_) => panic!("no credential is refused"),
        }
    }
}

#[test]
fn error_response_is_not_implemented() {
    let answer = Response {
        headers: Some(vec![("content-type".to_string(), "application/json".to_string())]),
        response: b"{\"message\":\"card declined\"}".to_vec(),
        status_code: 402,
    };
    assert_eq!(
        Revolv3::new().build_error_response(answer),
        Err(ConnectorError::NotImplemented("Revolv3".to_string()))
    );
}

#[test]
fn error_response_ignores_status_and_body() {
    let answer = Response { headers: None, response: Vec::new(), status_code: 200 };
    assert_eq!(
        Revolv3::new().build_error_response(answer),
        Err(ConnectorError::NotImplemented("Revolv3".to_string()))
    );
}

#[test]
fn webhook_object_reference_is_refused() {
    let headers = vec![("x-signature".to_string(), "abc".to_string())];
    let request = sample_request(&headers, b"{\"event\":\"payment.settled\"}");
    assert_eq!(
        Revolv3::new().get_webhook_object_reference_id(&request),
        Err(ConnectorError::WebhooksNotImplemented)
    );
}

#[test]
fn webhook_event_type_is_refused_with_and_without_context() {
    let headers: Vec<(String, String)> = Vec::new();
    let request = sample_request(&headers, b"");
    assert_eq!(
        Revolv3::new().get_webhook_event_type(&request, None),
        Err(ConnectorError::WebhooksNotImplemented)
    );
    let context = WebhookContext {};
    assert_eq!(
        Revolv3::new().get_webhook_event_type(&request, Some(&context)),
        Err(ConnectorError::WebhooksNotImplemented)
    );
}

#[test]
fn webhook_resource_object_is_refused() {
    let headers = vec![("content-type".to_string(), "application/json".to_string())];
    let request = sample_request(&headers, b"{\"id\":\"evt_1\",\"refund\":{\"id\":\"re_1\"}}");
    assert_eq!(
        Revolv3::new().get_webhook_resource_object(&request),
        Err(ConnectorError::WebhooksNotImplemented)
    );
}

#[test]
fn webhook_failure_is_not_the_generic_one() {
    let headers: Vec<(String, String)> = Vec::new();
    let request = sample_request(&headers, b"not json");
    let failure = Revolv3::new().get_webhook_object_reference_id(&request).unwrap_err();
    assert!(!matches!(failure, ConnectorError::NotImplemented(_)));
}

#[test]
fn connector_about_is_a_beta_payment_gateway() {
    let about = Revolv3::new().get_connector_about().expect("the connector describes itself");
    assert_eq!(about.integration_status, ConnectorIntegrationStatus::Beta);
    assert_eq!(about.connector_type, HyperswitchConnectorCategory::PaymentGateway);
    assert_eq!(about.display_name, "Revolv3");
    assert_eq!(
        about.description,
        "Revolv3 is a payment platform that enables secure card processing and alternative payment solutions for merchants through a unified API."
    );
}

#[test]
fn supported_webhook_flows_are_none() {
    let flows = Revolv3::new().get_supported_webhook_flows().expect("the list is declared");
    assert!(flows.is_empty());
}

#[test]
fn every_lifecycle_step_is_declared() {
    let steps = [
        Operation::Session,
        Operation::AccessTokenAuth,
        Operation::SetupMandate,
        Operation::Authorize,
        Operation::PSync,
        Operation::Capture,
        Operation::Void,
        Operation::PaymentMethodToken,
        Operation::Execute,
        Operation::RSync,
    ];
    for step in steps {
        assert!(Revolv3::new().declares_operation(step));
    }
}

#[test]
fn supported_payment_methods_declare_card_credit_only() {
    let cell = SupportedPaymentMethodsCell::new();
    let table = Revolv3::new().get_supported_payment_methods(&cell).expect("the table is declared");
    assert_eq!(table.keys(), vec![(PaymentMethod::Card, PaymentMethodType::Credit)]);
    assert_eq!(
        table.get(PaymentMethod::Card, PaymentMethodType::Credit),
        Some(&expected_card_credit())
    );
    assert_eq!(table.get(PaymentMethod::Card, PaymentMethodType::Debit), None);
    assert_eq!(table.get(PaymentMethod::Wallet, PaymentMethodType::Credit), None);
    assert_eq!(table.get(PaymentMethod::Wallet, PaymentMethodType::ApplePay), None);
}

#[test]
fn built_table_equals_the_cached_one() {
    let built = Revolv3SupportedPaymentMethods::build();
    let cell = SupportedPaymentMethodsCell::new();
    let cached = cell.get();
    assert_eq!(built.table().keys(), cached.keys());
    for (method, method_type) in cached.keys() {
        assert_eq!(built.table().get(method, method_type), cached.get(method, method_type));
    }
}

#[test]
fn capture_methods_are_declared_and_allowed_for_every_supported_pair() {
    let cell = SupportedPaymentMethodsCell::new();
    let table = Revolv3::new().get_supported_payment_methods(&cell).unwrap();
    let pairs = table.keys();
    assert!(!pairs.is_empty());
    for (method, method_type) in pairs {
        let details = table.get(method, method_type).expect("a listed pair has details");
        assert!(!details.supported_capture_methods.is_empty());
        for capture in &details.supported_capture_methods {
            assert!(matches!(
                capture,
                CaptureMethod::Automatic | CaptureMethod::Manual | CaptureMethod::SequentialAutomatic
            ));
        }
    }
}

#[test]
fn repeated_accesses_see_the_same_table() {
    let cell = SupportedPaymentMethodsCell::new();
    let first = cell.get();
    let second = cell.get();
    let third = Revolv3::new().get_supported_payment_methods(&cell).unwrap();
    assert!(std::ptr::eq(first, second));
    assert!(std::ptr::eq(first, third));
}

#[test]
fn separate_cells_hold_equal_tables() {
    let one = SupportedPaymentMethodsCell::new();
    let other = SupportedPaymentMethodsCell::new();
    assert!(!std::ptr::eq(one.get(), other.get()));
    assert_eq!(one.get().keys(), other.get().keys());
    assert_eq!(
        one.get().get(PaymentMethod::Card, PaymentMethodType::Credit),
        other.get().get(PaymentMethod::Card, PaymentMethodType::Credit)
    );
}

fn shared_between_threads<T: Send + Sync>(value: &T) -> &T {
    value
}

#[test]
fn cell_can_be_shared_between_threads() {
    let cell = SupportedPaymentMethodsCell::new();
    let shared = shared_between_threads(&cell);
    assert_eq!(shared.get().keys(), vec![(PaymentMethod::Card, PaymentMethodType::Credit)]);
    assert!(std::ptr::eq(shared.get(), cell.get()));
}
