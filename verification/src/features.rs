//! The records a connector publishes about itself, and the table of the
//! payment methods it supports.

use crate::enums::{
    CaptureMethod, CardNetwork, ConnectorIntegrationStatus, FeatureStatus,
    HyperswitchConnectorCategory, PaymentMethod, PaymentMethodType,
};
use vstd::prelude::*;

verus! {

/// What a connector offers for card payments.
#[derive(Clone, Debug, PartialEq, Eq)]
pub struct CardSpecificFeatures {
    /// Payments authenticated with 3-D Secure.
    pub three_ds: FeatureStatus,
    /// Payments without 3-D Secure.
    pub no_three_ds: FeatureStatus,
    /// The card schemes that are accepted.
    pub supported_card_networks: Vec<CardNetwork>,
}

/// The mathematical value of a [`CardSpecificFeatures`].
pub struct CardSpecificFeaturesView {
    pub three_ds: FeatureStatus,
    pub no_three_ds: FeatureStatus,
    pub supported_card_networks: Seq<CardNetwork>,
}

impl View for CardSpecificFeatures {
    type V = CardSpecificFeaturesView;

    open spec fn view(&self) -> CardSpecificFeaturesView {
        CardSpecificFeaturesView {
            three_ds: self.three_ds,
            no_three_ds: self.no_three_ds,
            supported_card_networks: self.supported_card_networks@,
        }
    }
}

/// Features that only make sense for one payment method.
#[derive(Clone, Debug, PartialEq, Eq)]
pub enum PaymentMethodSpecificFeatures {
    Card(CardSpecificFeatures),
}

/// The mathematical value of a [`PaymentMethodSpecificFeatures`].
pub enum PaymentMethodSpecificFeaturesView {
    Card(CardSpecificFeaturesView),
}

impl View for PaymentMethodSpecificFeatures {
    type V = PaymentMethodSpecificFeaturesView;

    open spec fn view(&self) -> PaymentMethodSpecificFeaturesView {
        match self {
            PaymentMethodSpecificFeatures::Card(card) => PaymentMethodSpecificFeaturesView::Card(
                card@,
            ),
        }
    }
}

/// What a connector offers for one pair of payment method and payment method
/// type.
#[derive(Clone, Debug, PartialEq, Eq)]
pub struct PaymentMethodDetails {
    /// Stored authorizations for later charges.
    pub mandates: FeatureStatus,
    /// Refunds of captured payments.
    pub refunds: FeatureStatus,
    /// The capture methods that may be requested, in order of declaration.
    pub supported_capture_methods: Vec<CaptureMethod>,
    /// Features particular to the payment method, if it has any.
    pub specific_features: Option<PaymentMethodSpecificFeatures>,
}

/// The mathematical value of a [`PaymentMethodDetails`].
pub struct PaymentMethodDetailsView {
    pub mandates: FeatureStatus,
    pub refunds: FeatureStatus,
    pub supported_capture_methods: Seq<CaptureMethod>,
    pub specific_features: Option<PaymentMethodSpecificFeaturesView>,
}

impl View for PaymentMethodDetails {
    type V = PaymentMethodDetailsView;

    open spec fn view(&self) -> PaymentMethodDetailsView {
        PaymentMethodDetailsView {
            mandates: self.mandates,
            refunds: self.refunds,
            supported_capture_methods: self.supported_capture_methods@,
            specific_features: match self.specific_features {
                Some(features) => Some(features@),
                None => None,
            },
        }
    }
}

/// How a connector is presented to merchants.
#[derive(Clone, Copy, Debug, PartialEq, Eq)]
pub struct ConnectorInfo {
    /// The name shown for the connector.
    pub display_name: &'static str,
    /// A short description of the provider.
    pub description: &'static str,
    /// The kind of service the connector provides.
    pub connector_type: HyperswitchConnectorCategory,
    /// How far the rollout of the connector has come.
    pub integration_status: ConnectorIntegrationStatus,
}

/// One row of a [`SupportedPaymentMethods`] table.
#[derive(Debug)]
struct SupportedEntry {
    payment_method: PaymentMethod,
    payment_method_type: PaymentMethodType,
    details: PaymentMethodDetails,
}

/// The pair a row is filed under.
spec fn entry_key(entry: SupportedEntry) -> (PaymentMethod, PaymentMethodType) {
    (entry.payment_method, entry.payment_method_type)
}

/// No two rows are filed under the same pair.
spec fn keys_distinct(rows: Seq<SupportedEntry>) -> bool {
    forall|i: int, j: int|
        0 <= i < j < rows.len() ==> entry_key(#[trigger] rows[i]) != entry_key(#[trigger] rows[j])
}

/// Some row is filed under `key`.
spec fn has_key(rows: Seq<SupportedEntry>, key: (PaymentMethod, PaymentMethodType)) -> bool {
    exists|i: int| 0 <= i < rows.len() && entry_key(#[trigger] rows[i]) == key
}

/// The position of a row filed under `key`.
spec fn index_of(rows: Seq<SupportedEntry>, key: (PaymentMethod, PaymentMethodType)) -> int {
    choose|i: int| 0 <= i < rows.len() && entry_key(#[trigger] rows[i]) == key
}

/// The mapping that a sequence of rows stands for.
spec fn rows_map(rows: Seq<SupportedEntry>) -> Map<
    (PaymentMethod, PaymentMethodType),
    PaymentMethodDetailsView,
> {
    Map::new(
        |key: (PaymentMethod, PaymentMethodType)| has_key(rows, key),
        |key: (PaymentMethod, PaymentMethodType)| rows[index_of(rows, key)].details@,
    )
}

/// With distinct keys, a row is found again under its own key.
proof fn lemma_index_of_row(rows: Seq<SupportedEntry>, i: int)
    requires
        keys_distinct(rows),
        0 <= i < rows.len(),
    ensures
        has_key(rows, entry_key(rows[i])),
        index_of(rows, entry_key(rows[i])) == i,
{
    let key = entry_key(rows[i]);
    let j = index_of(rows, key);
    assert(0 <= j < rows.len() && entry_key(rows[j]) == key);
    if j < i {
        assert(entry_key(rows[j]) != entry_key(rows[i]));
    } else if i < j {
        assert(entry_key(rows[i]) != entry_key(rows[j]));
    }
}

/// Appending a row under a fresh key inserts it into the mapping.
proof fn lemma_push_row(rows: Seq<SupportedEntry>, entry: SupportedEntry)
    requires
        keys_distinct(rows),
        !has_key(rows, entry_key(entry)),
    ensures
        keys_distinct(rows.push(entry)),
        rows_map(rows.push(entry)) == rows_map(rows).insert(entry_key(entry), entry.details@),
{
    let grown = rows.push(entry);
    let last = rows.len() as int;
    assert forall|i: int, j: int| 0 <= i < j < grown.len() implies entry_key(#[trigger] grown[i])
        != entry_key(#[trigger] grown[j]) by {
        if j < last {
            assert(entry_key(rows[i]) != entry_key(rows[j]));
        } else {
            assert(grown[i] == rows[i]);
            assert(entry_key(rows[i]) != entry_key(entry));
        }
    }
    let expected = rows_map(rows).insert(entry_key(entry), entry.details@);
    assert forall|key: (PaymentMethod, PaymentMethodType)|
        rows_map(grown).contains_key(key) <==> expected.contains_key(key) by {
        if has_key(grown, key) {
            let i = index_of(grown, key);
            if i < last {
                assert(entry_key(rows[i]) == key);
            }
        }
        if has_key(rows, key) {
            let i = index_of(rows, key);
            assert(entry_key(grown[i]) == key);
        }
        if key == entry_key(entry) {
            assert(entry_key(grown[last]) == key);
        }
    }
    assert forall|key: (PaymentMethod, PaymentMethodType)|
        rows_map(grown).contains_key(key) implies rows_map(grown)[key] == expected[key] by {
        if key == entry_key(entry) {
            lemma_index_of_row(grown, last);
        } else {
            let i = index_of(grown, key);
            assert(i < last);
            assert(entry_key(rows[i]) == key);
            lemma_index_of_row(rows, i);
        }
    }
    assert(rows_map(grown) =~= expected);
}

/// Replacing a row by one with the same key overwrites its value in the
/// mapping.
proof fn lemma_update_row(rows: Seq<SupportedEntry>, at: int, entry: SupportedEntry)
    requires
        keys_distinct(rows),
        0 <= at < rows.len(),
        entry_key(rows[at]) == entry_key(entry),
    ensures
        keys_distinct(rows.update(at, entry)),
        rows_map(rows.update(at, entry)) == rows_map(rows).insert(
            entry_key(entry),
            entry.details@,
        ),
{
    let changed = rows.update(at, entry);
    assert forall|i: int| 0 <= i < rows.len() implies entry_key(#[trigger] changed[i])
        == entry_key(rows[i]) by {}
    assert forall|i: int, j: int| 0 <= i < j < changed.len() implies entry_key(
        #[trigger] changed[i],
    ) != entry_key(#[trigger] changed[j]) by {
        assert(entry_key(rows[i]) != entry_key(rows[j]));
    }
    let expected = rows_map(rows).insert(entry_key(entry), entry.details@);
    assert forall|key: (PaymentMethod, PaymentMethodType)|
        rows_map(changed).contains_key(key) <==> expected.contains_key(key) by {
        if has_key(changed, key) {
            let i = index_of(changed, key);
            assert(entry_key(rows[i]) == key);
        }
        if has_key(rows, key) {
            let i = index_of(rows, key);
            assert(entry_key(changed[i]) == key);
        }
        if key == entry_key(entry) {
            assert(entry_key(changed[at]) == key);
        }
    }
    assert forall|key: (PaymentMethod, PaymentMethodType)|
        rows_map(changed).contains_key(key) implies rows_map(changed)[key] == expected[key] by {
        let i = index_of(changed, key);
        assert(entry_key(rows[i]) == key);
        lemma_index_of_row(rows, i);
        lemma_index_of_row(changed, i);
    }
    assert(rows_map(changed) =~= expected);
}

/// The payment methods a connector supports: a mapping from a pair of payment
/// method and payment method type to what is offered for it.
#[derive(Debug)]
pub struct SupportedPaymentMethods {
    entries: Vec<SupportedEntry>,
}

impl View for SupportedPaymentMethods {
    type V = Map<(PaymentMethod, PaymentMethodType), PaymentMethodDetailsView>;

    closed spec fn view(&self) -> Map<(PaymentMethod, PaymentMethodType), PaymentMethodDetailsView> {
        rows_map(self.entries@)
    }
}

impl SupportedPaymentMethods {
    #[verifier::type_invariant]
    spec fn well_formed(self) -> bool {
        keys_distinct(self.entries@)
    }

    /// A table that supports nothing.
    pub fn new() -> (table: Self)
        ensures
            table@ == Map::<(PaymentMethod, PaymentMethodType), PaymentMethodDetailsView>::empty(),
    {
        let table = SupportedPaymentMethods { entries: Vec::new() };
        assert(table@ =~= Map::<
            (PaymentMethod, PaymentMethodType),
            PaymentMethodDetailsView,
        >::empty());
        table
    }

    /// Where the row of a pair stands, if the table has one.
    fn position(
        &self,
        payment_method: PaymentMethod,
        payment_method_type: PaymentMethodType,
    ) -> (found: Option<usize>)
        ensures
            match found {
                Some(i) => i < self.entries@.len() && entry_key(self.entries@[i as int]) == (
                    payment_method,
                    payment_method_type,
                ),
                None => !has_key(self.entries@, (payment_method, payment_method_type)),
            },
    {
        let mut i: usize = 0;
        while i < self.entries.len()
            invariant
                i <= self.entries@.len(),
                forall|j: int|
                    0 <= j < i ==> entry_key(#[trigger] self.entries@[j]) != (
                        payment_method,
                        payment_method_type,
                    ),
            decreases self.entries@.len() - i,
        {
            if self.entries[i].payment_method == payment_method
                && self.entries[i].payment_method_type == payment_method_type {
                return Some(i);
            }
            i += 1;
        }
        None
    }

    /// Declares what is offered for a pair. A pair that was declared before
    /// gets the new details.
    pub fn add(
        &mut self,
        payment_method: PaymentMethod,
        payment_method_type: PaymentMethodType,
        payment_method_details: PaymentMethodDetails,
    )
        ensures
            final(self)@ == old(self)@.insert(
                (payment_method, payment_method_type),
                payment_method_details@,
            ),
    {
        proof {
            use_type_invariant(&*self);
        }
        let found = self.position(payment_method, payment_method_type);
        let entry = SupportedEntry {
            payment_method,
            payment_method_type,
            details: payment_method_details,
        };
        let mut entries: Vec<SupportedEntry> = Vec::new();
        std::mem::swap(&mut entries, &mut self.entries);
        match found {
            Some(i) => {
                proof {
                    lemma_update_row(entries@, i as int, entry);
                }
                entries.set(i, entry);
            },
            None => {
                proof {
                    lemma_push_row(entries@, entry);
                }
                entries.push(entry);
            },
        }
        self.entries = entries;
    }

    /// What is offered for a pair, if the table declares it.
    pub fn get(
        &self,
        payment_method: PaymentMethod,
        payment_method_type: PaymentMethodType,
    ) -> (found: Option<&PaymentMethodDetails>)
        ensures
            match found {
                Some(details) => self@.contains_key((payment_method, payment_method_type))
                    && details@ == self@[(payment_method, payment_method_type)],
                None => !self@.contains_key((payment_method, payment_method_type)),
            },
    {
        proof {
            use_type_invariant(self);
        }
        match self.position(payment_method, payment_method_type) {
            Some(i) => {
                proof {
                    lemma_index_of_row(self.entries@, i as int);
                }
                Some(&self.entries[i].details)
            },
            None => None,
        }
    }

    /// The declared pairs, each once.
    pub fn keys(&self) -> (pairs: Vec<(PaymentMethod, PaymentMethodType)>)
        ensures
            pairs@.no_duplicates(),
            forall|pair: (PaymentMethod, PaymentMethodType)|
                pairs@.contains(pair) <==> self@.contains_key(pair),
    {
        proof {
            use_type_invariant(self);
        }
        let mut pairs: Vec<(PaymentMethod, PaymentMethodType)> = Vec::new();
        let mut i: usize = 0;
        while i < self.entries.len()
            invariant
                i <= self.entries@.len(),
                pairs@.len() == i,
                forall|j: int| 0 <= j < i ==> pairs@[j] == entry_key(#[trigger] self.entries@[j]),
            decreases self.entries@.len() - i,
        {
            pairs.push((self.entries[i].payment_method, self.entries[i].payment_method_type));
            i += 1;
        }
        proof {
            assert forall|a: int, b: int| 0 <= a < pairs@.len() && 0 <= b < pairs@.len() && a
                != b implies pairs@[a] != pairs@[b] by {
                assert(pairs@[a] == entry_key(self.entries@[a]));
                assert(pairs@[b] == entry_key(self.entries@[b]));
            }
            assert forall|pair: (PaymentMethod, PaymentMethodType)|
                pairs@.contains(pair) <==> self@.contains_key(pair) by {
                if pairs@.contains(pair) {
                    let j = choose|j: int| 0 <= j < pairs@.len() && pairs@[j] == pair;
                    assert(entry_key(self.entries@[j]) == pair);
                }
                if has_key(self.entries@, pair) {
                    let j = index_of(self.entries@, pair);
                    assert(pairs@[j] == pair);
                }
            }
        }
        pairs
    }
}

} // verus!
