//! The plain values that the router hands to a connector and takes back from
//! it.

use vstd::prelude::*;

verus! {

/// The settings of one connector.
#[derive(Clone, Copy, Debug, PartialEq, Eq)]
pub struct ConnectorParams<'a> {
    /// The address that requests to the provider start with.
    pub base_url: &'a str,
}

/// The connector settings of a deployment.
#[derive(Clone, Copy, Debug, PartialEq, Eq)]
pub struct Connectors<'a> {
    /// The settings of the Revolv3 connector.
    pub revolv3: ConnectorParams<'a>,
}

/// The credentials a merchant has configured for a connector. The type has
/// no `Debug` form, so that a credential is not written to a log by accident.
#[derive(Clone, PartialEq, Eq)]
pub enum ConnectorAuthType {
    TemporaryAuth,
    HeaderKey { api_key: String },
    BodyKey { api_key: String, key1: String },
    SignatureKey { api_key: String, key1: String, api_secret: String },
    MultiAuthKey { api_key: String, key1: String, api_secret: String, key2: String },
    /// One credential for each currency, by currency code.
    CurrencyAuthKey { auth_key_map: Vec<(String, String)> },
    CertificateAuth { certificate: String, private_key: String },
    NoKey,
}

/// A header value, marked for whether it may appear in logs. The type has no
/// `Debug` form, so that a masked value is not written to a log by accident.
#[derive(Clone, PartialEq, Eq)]
pub enum Maskable<T> {
    /// A value to keep out of logs.
    Masked(T),
    /// A value that may be logged as it is.
    Normal(T),
}

/// What the provider answered to a request.
#[derive(Clone, Debug, PartialEq, Eq)]
pub struct Response {
    /// The headers of the answer, if they were kept.
    pub headers: Option<Vec<(String, String)>>,
    /// The body of the answer.
    pub response: Vec<u8>,
    /// The HTTP status of the answer.
    pub status_code: u16,
}

/// A provider's failure in the shape the router expects.
#[derive(Clone, Debug, PartialEq, Eq)]
pub struct ErrorResponse {
    /// The provider's error code.
    pub code: String,
    /// The provider's error message.
    pub message: String,
    /// A longer explanation, if the provider gave one.
    pub reason: Option<String>,
    /// The HTTP status of the answer.
    pub status_code: u16,
    /// The decline code of the card network, if there was one.
    pub network_decline_code: Option<String>,
}

/// An incoming webhook request as it arrived.
#[derive(Clone, Copy, Debug, PartialEq, Eq)]
pub struct IncomingWebhookRequestDetails<'a> {
    /// The HTTP method of the request.
    pub method: &'a str,
    /// The address the request was sent to.
    pub uri: &'a str,
    /// The headers of the request, by name and value.
    pub headers: &'a [(String, String)],
    /// The body of the request.
    pub body: &'a [u8],
    /// The query string of the request.
    pub query_params: &'a str,
}

/// Further context that the router may pass along with a webhook. The
/// connector reads none of it, so the record is empty.
#[derive(Clone, Copy, Debug, PartialEq, Eq)]
pub struct WebhookContext {}

/// How a webhook names the payment it refers to.
#[derive(Clone, Debug, PartialEq, Eq)]
pub enum PaymentIdType {
    ConnectorTransactionId(String),
    PaymentAttemptId(String),
    PreprocessingId(String),
}

/// How a webhook names the refund it refers to.
#[derive(Clone, Debug, PartialEq, Eq)]
pub enum RefundIdType {
    RefundId(String),
    ConnectorRefundId(String),
}

/// How a webhook names the mandate it refers to.
#[derive(Clone, Debug, PartialEq, Eq)]
pub enum MandateIdType {
    MandateId(String),
    ConnectorMandateId(String),
}

/// The record a webhook event refers to.
#[derive(Clone, Debug, PartialEq, Eq)]
pub enum ObjectReferenceId {
    PaymentId(PaymentIdType),
    RefundId(RefundIdType),
    MandateId(MandateIdType),
}

/// What a webhook reports.
#[derive(Clone, Copy, Debug, PartialEq, Eq, Hash, Structural)]
pub enum IncomingWebhookEvent {
    PaymentIntentFailure,
    PaymentIntentSuccess,
    PaymentIntentProcessing,
    PaymentIntentPartiallyFunded,
    PaymentIntentCancelled,
    PaymentIntentCancelFailure,
    PaymentIntentAuthorizationSuccess,
    PaymentIntentAuthorizationFailure,
    PaymentIntentCaptureSuccess,
    PaymentIntentCaptureFailure,
    PaymentActionRequired,
    EventNotSupported,
    SourceChargeable,
    SourceTransactionCreated,
    RefundFailure,
    RefundSuccess,
    DisputeOpened,
    DisputeExpired,
    DisputeAccepted,
    DisputeCancelled,
    DisputeChallenged,
    DisputeWon,
    DisputeLost,
    MandateActive,
    MandateRevoked,
    EndpointVerification,
}

} // verus!
