//! The vocabulary shared with the payment router: payment methods, capture
//! methods, card networks and the labels used in connector metadata.

use vstd::prelude::*;

verus! {

/// The family a payment instrument belongs to.
#[derive(Clone, Copy, Debug, PartialEq, Eq, Hash, Structural)]
pub enum PaymentMethod {
    Card,
    CardRedirect,
    PayLater,
    Wallet,
    BankRedirect,
    BankTransfer,
    Crypto,
    BankDebit,
    Reward,
    RealTimePayment,
    Upi,
    Voucher,
    GiftCard,
    OpenBanking,
    MobilePayment,
}

/// The concrete instrument within a payment method family.
#[derive(Clone, Copy, Debug, PartialEq, Eq, Hash, Structural)]
pub enum PaymentMethodType {
    Ach,
    Affirm,
    AfterpayClearpay,
    AliPay,
    ApplePay,
    Bacs,
    Becs,
    Credit,
    CryptoCurrency,
    Debit,
    Eps,
    Giropay,
    GooglePay,
    Ideal,
    Klarna,
    Paypal,
    Sepa,
    Sofort,
    WeChatPay,
}

/// When the funds of an authorized payment are captured.
#[derive(Clone, Copy, Debug, PartialEq, Eq, Hash, Structural)]
pub enum CaptureMethod {
    /// Captured right after authorization.
    Automatic,
    /// Captured by a later, explicit request.
    Manual,
    /// Captured in several later requests.
    ManualMultiple,
    /// Captured at a scheduled time.
    Scheduled,
    /// Authorized and then captured in a separate automatic step.
    SequentialAutomatic,
}

/// A card scheme.
#[derive(Clone, Copy, Debug, PartialEq, Eq, Hash, Structural)]
pub enum CardNetwork {
    Visa,
    Mastercard,
    AmericanExpress,
    JCB,
    DinersClub,
    Discover,
    CartesBancaires,
    UnionPay,
    Interac,
    RuPay,
    Maestro,
    Star,
    Pulse,
    Accel,
    Nyce,
}

/// Whether a connector offers a feature.
#[derive(Clone, Copy, Debug, PartialEq, Eq, Hash, Structural)]
pub enum FeatureStatus {
    NotSupported,
    Supported,
}

/// The kind of service a connector provides.
#[derive(Clone, Copy, Debug, PartialEq, Eq, Hash, Structural)]
pub enum HyperswitchConnectorCategory {
    PaymentGateway,
    AlternativePaymentMethod,
    BankAcquirer,
    PayoutProcessor,
    AuthenticationProvider,
    FraudAndRiskManagementProvider,
    TaxCalculationProvider,
    RevenueGrowthManagementPlatform,
}

/// How far the rollout of a connector has come.
#[derive(Clone, Copy, Debug, PartialEq, Eq, Hash, Structural)]
pub enum ConnectorIntegrationStatus {
    /// Usable in production.
    Live,
    /// Usable in production, still being hardened.
    Beta,
    /// Not yet meant for production traffic.
    Alpha,
    /// Usable against the provider's sandbox only.
    Sandbox,
}

/// The class of objects a webhook event reports on.
#[derive(Clone, Copy, Debug, PartialEq, Eq, Hash, Structural)]
pub enum EventClass {
    Payments,
    Refunds,
    Disputes,
    Mandates,
    Payouts,
}

/// The unit in which a connector expects currency amounts.
#[derive(Clone, Copy, Debug, PartialEq, Eq, Hash, Structural)]
pub enum CurrencyUnit {
    /// The currency's base unit, such as dollars.
    Base,
    /// The currency's minor unit, such as cents.
    Minor,
}

/// A step of the payment lifecycle that the router may dispatch to a connector.
#[derive(Clone, Copy, Debug, PartialEq, Eq, Hash, Structural)]
pub enum Operation {
    /// Creating a payment session.
    Session,
    /// Fetching an access token.
    AccessTokenAuth,
    /// Setting up a mandate.
    SetupMandate,
    /// Authorizing a payment.
    Authorize,
    /// Synchronizing the state of a payment.
    PSync,
    /// Capturing an authorized payment.
    Capture,
    /// Voiding an authorized payment.
    Void,
    /// Tokenizing a payment method.
    PaymentMethodToken,
    /// Executing a refund.
    Execute,
    /// Synchronizing the state of a refund.
    RSync,
}

} // verus!
