//! The Revolv3 connector: who it is, how it is reached, what it declares, and
//! the operations it answers with a fixed failure for now.

use crate::enums::{
    CaptureMethod, CardNetwork, ConnectorIntegrationStatus, CurrencyUnit, EventClass,
    FeatureStatus, HyperswitchConnectorCategory, Operation, PaymentMethod, PaymentMethodType,
};
use crate::errors::ConnectorError;
use crate::features::{
    CardSpecificFeatures, CardSpecificFeaturesView, ConnectorInfo, PaymentMethodDetails,
    PaymentMethodDetailsView, PaymentMethodSpecificFeatures, PaymentMethodSpecificFeaturesView,
    SupportedPaymentMethods,
};
use crate::types::{
    ConnectorAuthType, Connectors, ErrorResponse, IncomingWebhookEvent,
    IncomingWebhookRequestDetails, Maskable, ObjectReferenceId, Response, WebhookContext,
};
use std::sync::OnceLock;
use vstd::prelude::*;

verus! {

/// The identifier under which the router knows the connector.
pub open spec fn connector_id() -> Seq<char> {
    "revolv3"@
}

/// The content type of the requests sent to the provider.
pub open spec fn content_type() -> Seq<char> {
    "application/json"@
}

/// The name shown for the connector, which also names it in failures.
pub open spec fn display_name() -> Seq<char> {
    "Revolv3"@
}

/// The description shown for the connector.
pub open spec fn description() -> Seq<char> {
    "Revolv3 is a payment platform that enables secure card processing and alternative payment solutions for merchants through a unified API."@
}

/// The lifecycle steps the connector declares.
pub open spec fn declared_operations() -> Set<Operation> {
    set![
        Operation::Session,
        Operation::AccessTokenAuth,
        Operation::SetupMandate,
        Operation::Authorize,
        Operation::PSync,
        Operation::Capture,
        Operation::Void,
        Operation::PaymentMethodToken,
        Operation::Execute,
        Operation::RSync,
    ]
}

/// The capture methods the connector allows.
pub open spec fn allowed_capture_method(method: CaptureMethod) -> bool {
    method == CaptureMethod::Automatic || method == CaptureMethod::Manual || method
        == CaptureMethod::SequentialAutomatic
}

/// The capture methods declared for a supported payment method, in order.
pub open spec fn default_capture_methods() -> Seq<CaptureMethod> {
    seq![CaptureMethod::Automatic, CaptureMethod::Manual, CaptureMethod::SequentialAutomatic]
}

/// The card networks declared for card payments, in order.
pub open spec fn supported_card_networks() -> Seq<CardNetwork> {
    seq![
        CardNetwork::Visa,
        CardNetwork::Mastercard,
        CardNetwork::AmericanExpress,
        CardNetwork::Discover,
        CardNetwork::JCB,
        CardNetwork::DinersClub,
        CardNetwork::UnionPay,
    ]
}

/// What the connector declares for credit cards.
pub open spec fn card_credit_details() -> PaymentMethodDetailsView {
    PaymentMethodDetailsView {
        mandates: FeatureStatus::Supported,
        refunds: FeatureStatus::Supported,
        supported_capture_methods: default_capture_methods(),
        specific_features: Some(
            PaymentMethodSpecificFeaturesView::Card(
                CardSpecificFeaturesView {
                    three_ds: FeatureStatus::NotSupported,
                    no_three_ds: FeatureStatus::Supported,
                    supported_card_networks: supported_card_networks(),
                },
            ),
        ),
    }
}

/// The payment methods the connector supports.
pub open spec fn supported_payment_methods() -> Map<
    (PaymentMethod, PaymentMethodType),
    PaymentMethodDetailsView,
> {
    Map::<(PaymentMethod, PaymentMethodType), PaymentMethodDetailsView>::empty().insert(
        (PaymentMethod::Card, PaymentMethodType::Credit),
        card_credit_details(),
    )
}

/// Every supported pair of payment method and payment method type declares at
/// least one capture method, and declares only capture methods that the
/// connector allows.
pub proof fn lemma_supported_capture_methods(
    payment_method: PaymentMethod,
    payment_method_type: PaymentMethodType,
)
    requires
        supported_payment_methods().contains_key((payment_method, payment_method_type)),
    ensures
        supported_payment_methods()[(
            payment_method,
            payment_method_type,
        )].supported_capture_methods.len() > 0,
        forall|i: int|
            0 <= i < supported_payment_methods()[(
                payment_method,
                payment_method_type,
            )].supported_capture_methods.len() ==> allowed_capture_method(
                #[trigger] supported_payment_methods()[(
                    payment_method,
                    payment_method_type,
                )].supported_capture_methods[i],
            ),
{
}

/// The connector's table of supported payment methods. A value of this type
/// always holds exactly [`supported_payment_methods`].
#[derive(Debug)]
pub struct Revolv3SupportedPaymentMethods {
    table: SupportedPaymentMethods,
}

impl View for Revolv3SupportedPaymentMethods {
    type V = Map<(PaymentMethod, PaymentMethodType), PaymentMethodDetailsView>;

    closed spec fn view(&self) -> Map<(PaymentMethod, PaymentMethodType), PaymentMethodDetailsView> {
        self.table@
    }
}

impl Revolv3SupportedPaymentMethods {
    #[verifier::type_invariant]
    spec fn holds_declared_methods(self) -> bool {
        self.table@ == supported_payment_methods()
    }

    /// Builds the table.
    pub fn build() -> (built: Self)
        ensures
            built@ == supported_payment_methods(),
    {
        let capture_methods = vec![
            CaptureMethod::Automatic,
            CaptureMethod::Manual,
            CaptureMethod::SequentialAutomatic,
        ];

        let card_networks = vec![
            CardNetwork::Visa,
            CardNetwork::Mastercard,
            CardNetwork::AmericanExpress,
            CardNetwork::Discover,
            CardNetwork::JCB,
            CardNetwork::DinersClub,
            CardNetwork::UnionPay,
        ];

        let mut revolv3_supported_payment_methods = SupportedPaymentMethods::new();

        let card_credit = PaymentMethodDetails {
            mandates: FeatureStatus::Supported,
            refunds: FeatureStatus::Supported,
            supported_capture_methods: capture_methods,
            specific_features: Some(
                PaymentMethodSpecificFeatures::Card(
                    CardSpecificFeatures {
                        three_ds: FeatureStatus::NotSupported,
                        no_three_ds: FeatureStatus::Supported,
                        supported_card_networks: card_networks,
                    },
                ),
            ),
        };
        assert(card_credit@.supported_capture_methods =~= default_capture_methods());
        assert(card_credit@.specific_features->Some_0->Card_0.supported_card_networks
            =~= supported_card_networks());
        assert(card_credit@ == card_credit_details());

        revolv3_supported_payment_methods.add(
            PaymentMethod::Card,
            PaymentMethodType::Credit,
            card_credit,
        );

        Revolv3SupportedPaymentMethods { table: revolv3_supported_payment_methods }
    }

    /// The table itself.
    pub fn table(&self) -> (table: &SupportedPaymentMethods)
        ensures
            table@ == supported_payment_methods(),
            table@ == self@,
    {
        proof {
            use_type_invariant(self);
        }
        &self.table
    }
}

/// Declares `std::sync::OnceLock`, so that such a cell can stand in a field.
/// What a cell holds is not visible to the verifier.
#[verifier::external_type_specification]
#[verifier::external_body]
#[verifier::reject_recursive_types(T)]
pub struct ExOnceLock<T>(OnceLock<T>);

/// Calls `std::sync::OnceLock::new`, which makes a cell that holds nothing
/// yet. Nothing is claimed of the cell.
#[verifier::external_body]
fn empty_cell() -> OnceLock<Revolv3SupportedPaymentMethods> {
    OnceLock::new()
}

/// Calls `std::sync::OnceLock::get_or_init`, which hands out what the cell
/// holds and, if it holds nothing yet, first fills it with the table from
/// [`Revolv3SupportedPaymentMethods::build`]. Nothing is claimed of the
/// result beyond its type.
#[verifier::external_body]
fn get_or_build(cell: &OnceLock<Revolv3SupportedPaymentMethods>) -> &Revolv3SupportedPaymentMethods {
    cell.get_or_init(|| Revolv3SupportedPaymentMethods::build())
}

/// Holds the connector's table of supported payment methods, to be made once
/// where the connector is registered and shared by reference from there.
///
/// The table is built on first access. That it is built once only, and that
/// every reader is handed that one table also when many threads share the
/// cell, is the doing of `std::sync::OnceLock`. What is proved here is that
/// whatever table a reader is handed is the complete one.
#[derive(Debug)]
pub struct SupportedPaymentMethodsCell {
    cell: OnceLock<Revolv3SupportedPaymentMethods>,
}

impl SupportedPaymentMethodsCell {
    /// A cell whose table has not been built yet.
    pub fn new() -> Self {
        SupportedPaymentMethodsCell { cell: empty_cell() }
    }

    /// The table, built now if this is the first access.
    pub fn get(&self) -> (table: &SupportedPaymentMethods)
        ensures
            table@ == supported_payment_methods(),
    {
        get_or_build(&self.cell).table()
    }
}

/// The Revolv3 connector. It carries no state.
#[derive(Clone)]
pub struct Revolv3 {}

impl Revolv3 {
    /// The shared connector instance.
    pub fn new() -> (connector: &'static Self)
        ensures
            *connector == (Revolv3 {}),
    {
        &Self {}
    }

    /// The identifier under which the router knows the connector.
    pub fn id(&self) -> (id: &'static str)
        ensures
            id@ == connector_id(),
    {
        "revolv3"
    }

    /// Amounts are given in the currency's base unit.
    pub fn get_currency_unit(&self) -> (unit: CurrencyUnit)
        ensures
            unit == CurrencyUnit::Base,
    {
        CurrencyUnit::Base
    }

    /// The content type of the requests sent to the provider.
    pub fn common_get_content_type(&self) -> (value: &'static str)
        ensures
            value@ == content_type(),
    {
        "application/json"
    }

    /// The address that requests to the provider start with, as configured.
    pub fn base_url<'a>(&self, connectors: &Connectors<'a>) -> (url: &'a str)
        ensures
            url@ == connectors.revolv3.base_url@,
    {
        connectors.revolv3.base_url
    }

    /// The headers that authenticate a request. No credential is turned into
    /// a header yet: the list is empty whatever the credentials are.
    pub fn get_auth_header(&self, _auth_type: &ConnectorAuthType) -> (headers: Result<
        Vec<(String, Maskable<String>)>,
        ConnectorError,
    >)
        ensures
            headers matches Ok(list) && list@ == Seq::<(String, Maskable<String>)>::empty(),
    {
        Ok(Vec::new())
    }

    /// Turns a provider's failure into the shape the router expects. The
    /// provider's answer is not read yet: every answer is reported as not
    /// implemented.
    pub fn build_error_response(&self, _res: Response) -> (error: Result<
        ErrorResponse,
        ConnectorError,
    >)
        ensures
            error matches Err(ConnectorError::NotImplemented(step)) && step@ == display_name(),
    {
        Err(ConnectorError::NotImplemented("Revolv3".to_string()))
    }

    /// Whether the connector declares a lifecycle step. A declared step has
    /// no request or response handling of its own yet.
    pub fn declares_operation(&self, operation: Operation) -> (declared: bool)
        ensures
            declared == declared_operations().contains(operation),
    {
        match operation {
            Operation::Session => true,
            Operation::AccessTokenAuth => true,
            Operation::SetupMandate => true,
            Operation::Authorize => true,
            Operation::PSync => true,
            Operation::Capture => true,
            Operation::Void => true,
            Operation::PaymentMethodToken => true,
            Operation::Execute => true,
            Operation::RSync => true,
        }
    }

    /// The record an incoming webhook refers to. Webhooks are not handled
    /// yet: every request is refused.
    pub fn get_webhook_object_reference_id(
        &self,
        _request: &IncomingWebhookRequestDetails<'_>,
    ) -> (reference: Result<ObjectReferenceId, ConnectorError>)
        ensures
            reference == Err::<ObjectReferenceId, ConnectorError>(
                ConnectorError::WebhooksNotImplemented,
            ),
    {
        Err(ConnectorError::WebhooksNotImplemented)
    }

    /// What an incoming webhook reports. Webhooks are not handled yet: every
    /// request is refused.
    pub fn get_webhook_event_type(
        &self,
        _request: &IncomingWebhookRequestDetails<'_>,
        _context: Option<&WebhookContext>,
    ) -> (event: Result<IncomingWebhookEvent, ConnectorError>)
        ensures
            event == Err::<IncomingWebhookEvent, ConnectorError>(
                ConnectorError::WebhooksNotImplemented,
            ),
    {
        Err(ConnectorError::WebhooksNotImplemented)
    }

    /// The serialized resource an incoming webhook carries. Webhooks are not
    /// handled yet: every request is refused.
    pub fn get_webhook_resource_object(
        &self,
        _request: &IncomingWebhookRequestDetails<'_>,
    ) -> (resource: Result<Vec<u8>, ConnectorError>)
        ensures
            resource == Err::<Vec<u8>, ConnectorError>(ConnectorError::WebhooksNotImplemented),
    {
        Err(ConnectorError::WebhooksNotImplemented)
    }

    /// How the connector is presented to merchants.
    pub fn get_connector_about(&self) -> (about: Option<&'static ConnectorInfo>)
        ensures
            about matches Some(info) && info.display_name@ == display_name() && info.description@
                == description() && info.connector_type
                == HyperswitchConnectorCategory::PaymentGateway && info.integration_status
                == ConnectorIntegrationStatus::Beta,
    {
        Some(
            &ConnectorInfo {
                display_name: "Revolv3",
                description: "Revolv3 is a payment platform that enables secure card processing and alternative payment solutions for merchants through a unified API.",
                connector_type: HyperswitchConnectorCategory::PaymentGateway,
                integration_status: ConnectorIntegrationStatus::Beta,
            },
        )
    }

    /// The payment methods the connector supports, read from the cell that
    /// holds them.
    pub fn get_supported_payment_methods<'a>(&self, cell: &'a SupportedPaymentMethodsCell) -> (table:
        Option<&'a SupportedPaymentMethods>)
        ensures
            table matches Some(methods) && methods@ == supported_payment_methods(),
    {
        Some(cell.get())
    }

    /// The classes of webhook events the connector emits: none.
    pub fn get_supported_webhook_flows(&self) -> (flows: Option<&'static [EventClass]>)
        ensures
            flows matches Some(classes) && classes@ == Seq::<EventClass>::empty(),
    {
        Some(&[])
    }
}

} // verus!
