use vstd::prelude::*;

use crate::credit_facility::CreditFacilityAccountIds;
use crate::primitives::{CalaAccountId, CalaAccountSetId};

verus! {

/// The side on which an account's balance normally sits.
#[derive(Debug, Clone, Copy, PartialEq, Eq, Structural)]
pub enum DebitOrCredit {
    Debit,
    Credit,
}

/// Kinds of customer, each with receivable account sets of its own.
#[derive(Debug, Clone, Copy, PartialEq, Eq, Structural)]
pub enum CustomerType {
    Individual,
    GovernmentEntity,
    PrivateCompany,
    Bank,
    FinancialInstitution,
    ForeignAgencyOrSubsidiary,
    NonDomiciledCompany,
}

/// Which disbursed-receivable account sets a facility's principal sits in.
#[derive(Debug, Clone, Copy, PartialEq, Eq, Structural)]
pub enum DisbursedReceivableAccountCategory {
    ShortTerm,
    LongTerm,
    Overdue,
}

#[derive(Debug, Clone, Copy, PartialEq, Eq, Structural)]
pub enum DurationType {
    ShortTerm,
    LongTerm,
}

#[derive(Debug, Clone, Copy, PartialEq, Eq, Structural)]
pub struct InternalAccountSetDetails {
    pub id: CalaAccountSetId,
    pub normal_balance_type: DebitOrCredit,
}

/// One account set per customer type.
#[derive(Debug, Clone, Copy, PartialEq, Eq, Structural)]
pub struct DisbursedReceivableAccountSets {
    pub individual: InternalAccountSetDetails,
    pub government_entity: InternalAccountSetDetails,
    pub private_company: InternalAccountSetDetails,
    pub bank: InternalAccountSetDetails,
    pub financial_institution: InternalAccountSetDetails,
    pub foreign_agency_or_subsidiary: InternalAccountSetDetails,
    pub non_domiciled_company: InternalAccountSetDetails,
}

/// One account set per customer type.
#[derive(Debug, Clone, Copy, PartialEq, Eq, Structural)]
pub struct InterestReceivableAccountSets {
    pub individual: InternalAccountSetDetails,
    pub government_entity: InternalAccountSetDetails,
    pub private_company: InternalAccountSetDetails,
    pub bank: InternalAccountSetDetails,
    pub financial_institution: InternalAccountSetDetails,
    pub foreign_agency_or_subsidiary: InternalAccountSetDetails,
    pub non_domiciled_company: InternalAccountSetDetails,
}

#[derive(Debug, Clone, Copy, PartialEq, Eq, Structural)]
pub struct DisbursedReceivable {
    pub short_term: DisbursedReceivableAccountSets,
    pub long_term: DisbursedReceivableAccountSets,
    pub overdue: DisbursedReceivableAccountSets,
}

#[derive(Debug, Clone, Copy, PartialEq, Eq, Structural)]
pub struct InterestReceivable {
    pub short_term: InterestReceivableAccountSets,
    pub long_term: InterestReceivableAccountSets,
}

/// The account sets every facility's accounts are attached to.
#[derive(Debug, Clone, Copy, PartialEq, Eq, Structural)]
pub struct CreditFacilityInternalAccountSets {
    pub facility: InternalAccountSetDetails,
    pub collateral: InternalAccountSetDetails,
    pub disbursed_receivable: DisbursedReceivable,
    pub disbursed_defaulted: InternalAccountSetDetails,
    pub interest_receivable: InterestReceivable,
    pub interest_defaulted: InternalAccountSetDetails,
    pub interest_income: InternalAccountSetDetails,
    pub fee_income: InternalAccountSetDetails,
}

impl DisbursedReceivableAccountSets {
    pub open spec fn spec_ids(&self) -> Seq<CalaAccountSetId> {
        seq![
            self.individual.id,
            self.government_entity.id,
            self.private_company.id,
            self.bank.id,
            self.financial_institution.id,
            self.foreign_agency_or_subsidiary.id,
            self.non_domiciled_company.id,
        ]
    }

    /// The ids of the seven sets, in customer-type order.
    pub fn account_set_ids(&self) -> (r: Vec<CalaAccountSetId>)
        ensures
            r@ == self.spec_ids(),
    {
        let r = vec![
            self.individual.id,
            self.government_entity.id,
            self.private_company.id,
            self.bank.id,
            self.financial_institution.id,
            self.foreign_agency_or_subsidiary.id,
            self.non_domiciled_company.id,
        ];
        assert(r@ =~= self.spec_ids());
        r
    }

    pub open spec fn spec_for(&self, t: CustomerType) -> InternalAccountSetDetails {
        match t {
            CustomerType::Individual => self.individual,
            CustomerType::GovernmentEntity => self.government_entity,
            CustomerType::PrivateCompany => self.private_company,
            CustomerType::Bank => self.bank,
            CustomerType::FinancialInstitution => self.financial_institution,
            CustomerType::ForeignAgencyOrSubsidiary => self.foreign_agency_or_subsidiary,
            CustomerType::NonDomiciledCompany => self.non_domiciled_company,
        }
    }

    /// The set for customers of type `t`.
    pub fn for_customer_type(&self, t: CustomerType) -> (r: InternalAccountSetDetails)
        ensures
            r == self.spec_for(t),
    {
        match t {
            CustomerType::Individual => self.individual,
            CustomerType::GovernmentEntity => self.government_entity,
            CustomerType::PrivateCompany => self.private_company,
            CustomerType::Bank => self.bank,
            CustomerType::FinancialInstitution => self.financial_institution,
            CustomerType::ForeignAgencyOrSubsidiary => self.foreign_agency_or_subsidiary,
            CustomerType::NonDomiciledCompany => self.non_domiciled_company,
        }
    }
}

impl InterestReceivableAccountSets {
    pub open spec fn spec_ids(&self) -> Seq<CalaAccountSetId> {
        seq![
            self.individual.id,
            self.government_entity.id,
            self.private_company.id,
            self.bank.id,
            self.financial_institution.id,
            self.foreign_agency_or_subsidiary.id,
            self.non_domiciled_company.id,
        ]
    }

    /// The ids of the seven sets, in customer-type order.
    pub fn account_set_ids(&self) -> (r: Vec<CalaAccountSetId>)
        ensures
            r@ == self.spec_ids(),
    {
        let r = vec![
            self.individual.id,
            self.government_entity.id,
            self.private_company.id,
            self.bank.id,
            self.financial_institution.id,
            self.foreign_agency_or_subsidiary.id,
            self.non_domiciled_company.id,
        ];
        assert(r@ =~= self.spec_ids());
        r
    }

    pub open spec fn spec_for(&self, t: CustomerType) -> InternalAccountSetDetails {
        match t {
            CustomerType::Individual => self.individual,
            CustomerType::GovernmentEntity => self.government_entity,
            CustomerType::PrivateCompany => self.private_company,
            CustomerType::Bank => self.bank,
            CustomerType::FinancialInstitution => self.financial_institution,
            CustomerType::ForeignAgencyOrSubsidiary => self.foreign_agency_or_subsidiary,
            CustomerType::NonDomiciledCompany => self.non_domiciled_company,
        }
    }

    /// The set for customers of type `t`.
    pub fn for_customer_type(&self, t: CustomerType) -> (r: InternalAccountSetDetails)
        ensures
            r == self.spec_for(t),
    {
        match t {
            CustomerType::Individual => self.individual,
            CustomerType::GovernmentEntity => self.government_entity,
            CustomerType::PrivateCompany => self.private_company,
            CustomerType::Bank => self.bank,
            CustomerType::FinancialInstitution => self.financial_institution,
            CustomerType::ForeignAgencyOrSubsidiary => self.foreign_agency_or_subsidiary,
            CustomerType::NonDomiciledCompany => self.non_domiciled_company,
        }
    }
}

impl CreditFacilityInternalAccountSets {
    pub open spec fn spec_ids(&self) -> Seq<CalaAccountSetId> {
        seq![
            self.facility.id,
            self.collateral.id,
            self.interest_income.id,
            self.fee_income.id,
            self.disbursed_defaulted.id,
            self.interest_defaulted.id,
        ] + self.disbursed_receivable.short_term.spec_ids()
            + self.disbursed_receivable.long_term.spec_ids()
            + self.disbursed_receivable.overdue.spec_ids()
            + self.interest_receivable.short_term.spec_ids()
            + self.interest_receivable.long_term.spec_ids()
    }

    /// The ids of every internal set: the six single sets, then the
    /// per-customer-type sets of short-term, long-term and overdue principal
    /// and of short-term and long-term interest.
    pub fn account_set_ids(&self) -> (r: Vec<CalaAccountSetId>)
        ensures
            r@ == self.spec_ids(),
    {
        let mut ids = vec![
            self.facility.id,
            self.collateral.id,
            self.interest_income.id,
            self.fee_income.id,
            self.disbursed_defaulted.id,
            self.interest_defaulted.id,
        ];
        let ghost first = ids@;
        let mut a = self.disbursed_receivable.short_term.account_set_ids();
        ids.append(&mut a);
        let mut b = self.disbursed_receivable.long_term.account_set_ids();
        ids.append(&mut b);
        let mut c = self.disbursed_receivable.overdue.account_set_ids();
        ids.append(&mut c);
        let mut d = self.interest_receivable.short_term.account_set_ids();
        ids.append(&mut d);
        let mut e = self.interest_receivable.long_term.account_set_ids();
        ids.append(&mut e);
        assert(first =~= seq![
            self.facility.id,
            self.collateral.id,
            self.interest_income.id,
            self.fee_income.id,
            self.disbursed_defaulted.id,
            self.interest_defaulted.id,
        ]);
        ids
    }

    pub open spec fn spec_disbursed_set(
        &self,
        t: CustomerType,
        category: DisbursedReceivableAccountCategory,
    ) -> InternalAccountSetDetails {
        match category {
            DisbursedReceivableAccountCategory::ShortTerm => self.disbursed_receivable.short_term.spec_for(t),
            DisbursedReceivableAccountCategory::LongTerm => self.disbursed_receivable.long_term.spec_for(t),
            DisbursedReceivableAccountCategory::Overdue => self.disbursed_receivable.overdue.spec_for(t),
        }
    }

    /// The disbursed-receivable set for a customer type and category.
    pub fn disbursed_internal_account_set_from_type(
        &self,
        t: CustomerType,
        category: DisbursedReceivableAccountCategory,
    ) -> (r: InternalAccountSetDetails)
        ensures
            r == self.spec_disbursed_set(t, category),
    {
        let sets = match category {
            DisbursedReceivableAccountCategory::ShortTerm => &self.disbursed_receivable.short_term,
            DisbursedReceivableAccountCategory::LongTerm => &self.disbursed_receivable.long_term,
            DisbursedReceivableAccountCategory::Overdue => &self.disbursed_receivable.overdue,
        };
        sets.for_customer_type(t)
    }

    pub open spec fn spec_interest_set(&self, t: CustomerType, duration: DurationType) -> InternalAccountSetDetails {
        match duration {
            DurationType::ShortTerm => self.interest_receivable.short_term.spec_for(t),
            DurationType::LongTerm => self.interest_receivable.long_term.spec_for(t),
        }
    }

    /// The interest-receivable set for a customer type and facility duration.
    pub fn interest_internal_account_set_from_type(
        &self,
        t: CustomerType,
        duration: DurationType,
    ) -> (r: InternalAccountSetDetails)
        ensures
            r == self.spec_interest_set(t, duration),
    {
        let sets = match duration {
            DurationType::ShortTerm => &self.interest_receivable.short_term,
            DurationType::LongTerm => &self.interest_receivable.long_term,
        };
        sets.for_customer_type(t)
    }
}

/// Parent account sets in the chart of accounts that one group of internal
/// receivable sets was attached to, one per customer type.
#[derive(Debug, Clone, Copy, PartialEq, Eq, Structural)]
pub struct ShortTermDisbursedIntegrationMeta {
    pub short_term_individual_disbursed_receivable_parent_account_set_id: CalaAccountSetId,
    pub short_term_government_entity_disbursed_receivable_parent_account_set_id: CalaAccountSetId,
    pub short_term_private_company_disbursed_receivable_parent_account_set_id: CalaAccountSetId,
    pub short_term_bank_disbursed_receivable_parent_account_set_id: CalaAccountSetId,
    pub short_term_financial_institution_disbursed_receivable_parent_account_set_id: CalaAccountSetId,
    pub short_term_foreign_agency_or_subsidiary_disbursed_receivable_parent_account_set_id: CalaAccountSetId,
    pub short_term_non_domiciled_company_disbursed_receivable_parent_account_set_id: CalaAccountSetId,
}

/// Parent account sets in the chart of accounts that one group of internal
/// receivable sets was attached to, one per customer type.
#[derive(Debug, Clone, Copy, PartialEq, Eq, Structural)]
pub struct LongTermDisbursedIntegrationMeta {
    pub long_term_individual_disbursed_receivable_parent_account_set_id: CalaAccountSetId,
    pub long_term_government_entity_disbursed_receivable_parent_account_set_id: CalaAccountSetId,
    pub long_term_private_company_disbursed_receivable_parent_account_set_id: CalaAccountSetId,
    pub long_term_bank_disbursed_receivable_parent_account_set_id: CalaAccountSetId,
    pub long_term_financial_institution_disbursed_receivable_parent_account_set_id: CalaAccountSetId,
    pub long_term_foreign_agency_or_subsidiary_disbursed_receivable_parent_account_set_id: CalaAccountSetId,
    pub long_term_non_domiciled_company_disbursed_receivable_parent_account_set_id: CalaAccountSetId,
}

/// Parent account sets in the chart of accounts that one group of internal
/// receivable sets was attached to, one per customer type.
#[derive(Debug, Clone, Copy, PartialEq, Eq, Structural)]
pub struct ShortTermInterestIntegrationMeta {
    pub short_term_individual_interest_receivable_parent_account_set_id: CalaAccountSetId,
    pub short_term_government_entity_interest_receivable_parent_account_set_id: CalaAccountSetId,
    pub short_term_private_company_interest_receivable_parent_account_set_id: CalaAccountSetId,
    pub short_term_bank_interest_receivable_parent_account_set_id: CalaAccountSetId,
    pub short_term_financial_institution_interest_receivable_parent_account_set_id: CalaAccountSetId,
    pub short_term_foreign_agency_or_subsidiary_interest_receivable_parent_account_set_id: CalaAccountSetId,
    pub short_term_non_domiciled_company_interest_receivable_parent_account_set_id: CalaAccountSetId,
}

/// Parent account sets in the chart of accounts that one group of internal
/// receivable sets was attached to, one per customer type.
#[derive(Debug, Clone, Copy, PartialEq, Eq, Structural)]
pub struct LongTermInterestIntegrationMeta {
    pub long_term_individual_interest_receivable_parent_account_set_id: CalaAccountSetId,
    pub long_term_government_entity_interest_receivable_parent_account_set_id: CalaAccountSetId,
    pub long_term_private_company_interest_receivable_parent_account_set_id: CalaAccountSetId,
    pub long_term_bank_interest_receivable_parent_account_set_id: CalaAccountSetId,
    pub long_term_financial_institution_interest_receivable_parent_account_set_id: CalaAccountSetId,
    pub long_term_foreign_agency_or_subsidiary_interest_receivable_parent_account_set_id: CalaAccountSetId,
    pub long_term_non_domiciled_company_interest_receivable_parent_account_set_id: CalaAccountSetId,
}

/// Parent account sets in the chart of accounts that one group of internal
/// receivable sets was attached to, one per customer type.
#[derive(Debug, Clone, Copy, PartialEq, Eq, Structural)]
pub struct OverdueDisbursedIntegrationMeta {
    pub overdue_individual_disbursed_receivable_parent_account_set_id: CalaAccountSetId,
    pub overdue_government_entity_disbursed_receivable_parent_account_set_id: CalaAccountSetId,
    pub overdue_private_company_disbursed_receivable_parent_account_set_id: CalaAccountSetId,
    pub overdue_bank_disbursed_receivable_parent_account_set_id: CalaAccountSetId,
    pub overdue_financial_institution_disbursed_receivable_parent_account_set_id: CalaAccountSetId,
    pub overdue_foreign_agency_or_subsidiary_disbursed_receivable_parent_account_set_id: CalaAccountSetId,
    pub overdue_non_domiciled_company_disbursed_receivable_parent_account_set_id: CalaAccountSetId,
}


/// The accounts every facility has.
#[derive(Debug, Clone, Copy, PartialEq, Eq, Structural)]
pub enum FacilityAccountKind {
    Collateral,
    Facility,
    DisbursedReceivableNotYetDue,
    DisbursedReceivableDue,
    DisbursedReceivableOverdue,
    DisbursedDefaulted,
    InterestReceivableNotYetDue,
    InterestReceivableDue,
    InterestReceivableOverdue,
    InterestDefaulted,
    InterestIncome,
    FeeIncome,
}

/// One account to create for a facility, and the set it belongs to.
#[derive(Debug, Clone, Copy, PartialEq, Eq, Structural)]
pub struct FacilityAccountPlan {
    pub kind: FacilityAccountKind,
    pub account_id: CalaAccountId,
    pub account_set: InternalAccountSetDetails,
}

/// The disbursed-receivable category of a facility's duration.
pub open spec fn category_of(d: DurationType) -> DisbursedReceivableAccountCategory {
    match d {
        DurationType::ShortTerm => DisbursedReceivableAccountCategory::ShortTerm,
        DurationType::LongTerm => DisbursedReceivableAccountCategory::LongTerm,
    }
}

impl CreditFacilityInternalAccountSets {
    pub open spec fn spec_account_plan(
        &self,
        ids: CreditFacilityAccountIds,
        t: CustomerType,
        d: DurationType,
    ) -> Seq<FacilityAccountPlan> {
        let disbursed = self.spec_disbursed_set(t, category_of(d));
        let interest = self.spec_interest_set(t, d);
        seq![
            FacilityAccountPlan { kind: FacilityAccountKind::Collateral, account_id: ids.collateral_account_id, account_set: self.collateral },
            FacilityAccountPlan { kind: FacilityAccountKind::Facility, account_id: ids.facility_account_id, account_set: self.facility },
            FacilityAccountPlan { kind: FacilityAccountKind::DisbursedReceivableNotYetDue, account_id: ids.disbursed_receivable_not_yet_due_account_id, account_set: disbursed },
            FacilityAccountPlan { kind: FacilityAccountKind::DisbursedReceivableDue, account_id: ids.disbursed_receivable_due_account_id, account_set: disbursed },
            FacilityAccountPlan { kind: FacilityAccountKind::DisbursedReceivableOverdue, account_id: ids.disbursed_receivable_overdue_account_id, account_set: self.spec_disbursed_set(t, DisbursedReceivableAccountCategory::Overdue) },
            FacilityAccountPlan { kind: FacilityAccountKind::DisbursedDefaulted, account_id: ids.disbursed_defaulted_account_id, account_set: self.disbursed_defaulted },
            FacilityAccountPlan { kind: FacilityAccountKind::InterestReceivableNotYetDue, account_id: ids.interest_receivable_not_yet_due_account_id, account_set: interest },
            FacilityAccountPlan { kind: FacilityAccountKind::InterestReceivableDue, account_id: ids.interest_receivable_due_account_id, account_set: interest },
            FacilityAccountPlan { kind: FacilityAccountKind::InterestReceivableOverdue, account_id: ids.interest_receivable_overdue_account_id, account_set: interest },
            FacilityAccountPlan { kind: FacilityAccountKind::InterestDefaulted, account_id: ids.interest_defaulted_account_id, account_set: self.interest_defaulted },
            FacilityAccountPlan { kind: FacilityAccountKind::InterestIncome, account_id: ids.interest_income_account_id, account_set: self.interest_income },
            FacilityAccountPlan { kind: FacilityAccountKind::FeeIncome, account_id: ids.fee_income_account_id, account_set: self.fee_income },
        ]
    }

    /// The accounts to create for a new facility of a customer of type `t`
    /// and duration `d`, each with the internal set it is attached to:
    /// receivables go to the sets of the customer type and duration (overdue
    /// principal to the overdue sets), the rest to the single sets.
    pub fn account_plan_for_credit_facility(
        &self,
        ids: CreditFacilityAccountIds,
        t: CustomerType,
        d: DurationType,
    ) -> (r: Vec<FacilityAccountPlan>)
        ensures
            r@ == self.spec_account_plan(ids, t, d),
    {
        let category = match d {
            DurationType::ShortTerm => DisbursedReceivableAccountCategory::ShortTerm,
            DurationType::LongTerm => DisbursedReceivableAccountCategory::LongTerm,
        };
        let disbursed = self.disbursed_internal_account_set_from_type(t, category);
        let overdue = self.disbursed_internal_account_set_from_type(
            t,
            DisbursedReceivableAccountCategory::Overdue,
        );
        let interest = self.interest_internal_account_set_from_type(t, d);
        let r = vec![
            FacilityAccountPlan { kind: FacilityAccountKind::Collateral, account_id: ids.collateral_account_id, account_set: self.collateral },
            FacilityAccountPlan { kind: FacilityAccountKind::Facility, account_id: ids.facility_account_id, account_set: self.facility },
            FacilityAccountPlan { kind: FacilityAccountKind::DisbursedReceivableNotYetDue, account_id: ids.disbursed_receivable_not_yet_due_account_id, account_set: disbursed },
            FacilityAccountPlan { kind: FacilityAccountKind::DisbursedReceivableDue, account_id: ids.disbursed_receivable_due_account_id, account_set: disbursed },
            FacilityAccountPlan { kind: FacilityAccountKind::DisbursedReceivableOverdue, account_id: ids.disbursed_receivable_overdue_account_id, account_set: overdue },
            FacilityAccountPlan { kind: FacilityAccountKind::DisbursedDefaulted, account_id: ids.disbursed_defaulted_account_id, account_set: self.disbursed_defaulted },
            FacilityAccountPlan { kind: FacilityAccountKind::InterestReceivableNotYetDue, account_id: ids.interest_receivable_not_yet_due_account_id, account_set: interest },
            FacilityAccountPlan { kind: FacilityAccountKind::InterestReceivableDue, account_id: ids.interest_receivable_due_account_id, account_set: interest },
            FacilityAccountPlan { kind: FacilityAccountKind::InterestReceivableOverdue, account_id: ids.interest_receivable_overdue_account_id, account_set: interest },
            FacilityAccountPlan { kind: FacilityAccountKind::InterestDefaulted, account_id: ids.interest_defaulted_account_id, account_set: self.interest_defaulted },
            FacilityAccountPlan { kind: FacilityAccountKind::InterestIncome, account_id: ids.interest_income_account_id, account_set: self.interest_income },
            FacilityAccountPlan { kind: FacilityAccountKind::FeeIncome, account_id: ids.fee_income_account_id, account_set: self.fee_income },
        ];
        assert(r@ =~= self.spec_account_plan(ids, t, d));
        r
    }
}

} // verus!
