//! The operations of the service, and the bucket that gates each of them.
//!
//! Which bucket an operation draws on is part of what the client promises: a
//! write that drew on the bucket of the reads would be sent faster than the
//! service allows.

use crate::limiter::LimiterClass;
use vstd::prelude::*;

verus! {

/// One operation of the service.
#[derive(Clone, Copy, Debug, PartialEq, Eq, Structural)]
pub enum Operation {
    ListCategories,
    ListDocs,
    CreateDoc,
    GetDoc,
    DeleteDoc,
    UpdateDoc,
    GetSharingMetadata,
    GetPermissions,
    AddPermission,
    DeletePermission,
    SearchPrincipals,
    GetAclSettings,
    UpdateAclSettings,
    PublishDoc,
    UnpublishDoc,
    ListPages,
    CreatePage,
    GetPage,
    UpdatePage,
    DeletePage,
    BeginPageContentExport,
    GetPageContentExportStatus,
    ListTables,
    GetTable,
    ListColumns,
    ListRows,
    UpsertRows,
    DeleteRows,
    GetRow,
    UpdateRow,
    DeleteRow,
    PushButton,
    GetColumn,
    ListFormulas,
    GetFormula,
    ListControls,
    GetControl,
    ListCustomDocDomains,
    AddCustomDocDomain,
    DeleteCustomDocDomain,
    UpdateCustomDocDomain,
    GetCustomDocDomainProvider,
    GetFolder,
    Whoami,
    ResolveBrowserLink,
    GetMutationStatus,
    TriggerWebhookAutomation,
    ListDocAnalytics,
    ListPageAnalytics,
    ListDocAnalyticsSummary,
    ListPackAnalytics,
    ListPackAnalyticsSummary,
    ListPackFormulaAnalytics,
    GetAnalyticsLastUpdated,
    ListWorkspaceMembers,
    ChangeUserRole,
    ListWorkspaceRoleActivity,
    ListPacks,
    CreatePack,
    GetPack,
    DeletePack,
    UpdatePack,
    GetPackConfigurationSchema,
    ListPackVersions,
    GetNextPackVersion,
    GetPackVersionDiffs,
    RegisterPackVersion,
    PackVersionUploadComplete,
    ListPackReleases,
    CreatePackRelease,
    UpdatePackRelease,
    GetPackOauthConfig,
    SetPackOauthConfig,
    GetPackSystemConnection,
    SetPackSystemConnection,
    PatchPackSystemConnection,
    GetPackPermissions,
    AddPackPermission,
    DeletePackPermission,
    ListUserPackInvitations,
    ListPackInvitations,
    CreatePackInvitation,
    UpdatePackInvitation,
    DeletePackInvitation,
    ReplyToPackInvitation,
    ListPackMakers,
    AddPackMaker,
    DeletePackMaker,
    ListPackCategories,
    AddPackCategory,
    DeletePackCategory,
    UploadPackAsset,
    UploadPackSourceCode,
    PackAssetUploadComplete,
    PackSourceCodeUploadComplete,
    GetPackSourceCode,
    ListPackListings,
    GetPackListing,
    ListPackLogs,
    ListIngestionLogs,
    ListGroupedPackLogs,
    ListGroupedIngestionLogs,
    ListIngestionBatchExecutions,
    ListIngestionParentItems,
    GetPackLogDetails,
    ListPackFeaturedDocs,
    UpdatePackFeaturedDocs,
    AddGoLink,
    ListAgentSessionIds,
    ListAgentLogs,
    GetAgentPackLogDetails,
    ListRowsRich,
    UpsertRowsCorrect,
    UpdateRowCorrect,
}

impl Operation {
    /// Whether the operation changes the make-up of a document: it creates,
    /// changes, deletes, publishes or unpublishes a document, creates, changes
    /// or deletes a page, or starts the export of a page.
    pub open spec fn changes_doc_content(self) -> bool {
        ||| self is CreateDoc
        ||| self is DeleteDoc
        ||| self is UpdateDoc
        ||| self is PublishDoc
        ||| self is UnpublishDoc
        ||| self is CreatePage
        ||| self is UpdatePage
        ||| self is DeletePage
        ||| self is BeginPageContentExport
    }

    /// Whether the operation reads analytics.
    pub open spec fn reads_analytics(self) -> bool {
        ||| self is ListDocAnalytics
        ||| self is ListPageAnalytics
        ||| self is ListDocAnalyticsSummary
        ||| self is ListPackAnalytics
        ||| self is ListPackAnalyticsSummary
        ||| self is ListPackFormulaAnalytics
        ||| self is GetAnalyticsLastUpdated
    }

    /// Whether the operation changes anything but the make-up of a document.
    pub open spec fn writes(self) -> bool {
        ||| self is AddPermission
        ||| self is DeletePermission
        ||| self is SearchPrincipals
        ||| self is UpdateAclSettings
        ||| self is UpsertRows
        ||| self is DeleteRows
        ||| self is UpdateRow
        ||| self is DeleteRow
        ||| self is PushButton
        ||| self is AddCustomDocDomain
        ||| self is DeleteCustomDocDomain
        ||| self is UpdateCustomDocDomain
        ||| self is TriggerWebhookAutomation
        ||| self is ChangeUserRole
        ||| self is CreatePack
        ||| self is DeletePack
        ||| self is UpdatePack
        ||| self is RegisterPackVersion
        ||| self is PackVersionUploadComplete
        ||| self is CreatePackRelease
        ||| self is UpdatePackRelease
        ||| self is SetPackOauthConfig
        ||| self is SetPackSystemConnection
        ||| self is PatchPackSystemConnection
        ||| self is AddPackPermission
        ||| self is DeletePackPermission
        ||| self is CreatePackInvitation
        ||| self is UpdatePackInvitation
        ||| self is DeletePackInvitation
        ||| self is ReplyToPackInvitation
        ||| self is AddPackMaker
        ||| self is DeletePackMaker
        ||| self is AddPackCategory
        ||| self is DeletePackCategory
        ||| self is UploadPackAsset
        ||| self is UploadPackSourceCode
        ||| self is PackAssetUploadComplete
        ||| self is PackSourceCodeUploadComplete
        ||| self is UpdatePackFeaturedDocs
        ||| self is AddGoLink
        ||| self is UpsertRowsCorrect
        ||| self is UpdateRowCorrect
    }

    /// The class whose bucket gates the operation: its own for the listing of
    /// documents, for changes to the make-up of documents and for analytics;
    /// the bucket of the writes for what else changes something; the bucket
    /// of the reads for all the rest.
    pub open spec fn class(self) -> LimiterClass {
        if self is ListDocs {
            LimiterClass::ListDocs
        } else if self.changes_doc_content() {
            LimiterClass::WriteDocContent
        } else if self.reads_analytics() {
            LimiterClass::ReadAnalytics
        } else if self.writes() {
            LimiterClass::Write
        } else {
            LimiterClass::Read
        }
    }

    /// The class whose bucket gates the operation.
    pub fn limiter_class(self) -> (r: LimiterClass)
        ensures
            r == self.class(),
    {
        match self {
            Operation::ListCategories => LimiterClass::Read,
            Operation::ListDocs => LimiterClass::ListDocs,
            Operation::CreateDoc => LimiterClass::WriteDocContent,
            Operation::GetDoc => LimiterClass::Read,
            Operation::DeleteDoc => LimiterClass::WriteDocContent,
            Operation::UpdateDoc => LimiterClass::WriteDocContent,
            Operation::GetSharingMetadata => LimiterClass::Read,
            Operation::GetPermissions => LimiterClass::Read,
            Operation::AddPermission => LimiterClass::Write,
            Operation::DeletePermission => LimiterClass::Write,
            Operation::SearchPrincipals => LimiterClass::Write,
            Operation::GetAclSettings => LimiterClass::Read,
            Operation::UpdateAclSettings => LimiterClass::Write,
            Operation::PublishDoc => LimiterClass::WriteDocContent,
            Operation::UnpublishDoc => LimiterClass::WriteDocContent,
            Operation::ListPages => LimiterClass::Read,
            Operation::CreatePage => LimiterClass::WriteDocContent,
            Operation::GetPage => LimiterClass::Read,
            Operation::UpdatePage => LimiterClass::WriteDocContent,
            Operation::DeletePage => LimiterClass::WriteDocContent,
            Operation::BeginPageContentExport => LimiterClass::WriteDocContent,
            Operation::GetPageContentExportStatus => LimiterClass::Read,
            Operation::ListTables => LimiterClass::Read,
            Operation::GetTable => LimiterClass::Read,
            Operation::ListColumns => LimiterClass::Read,
            Operation::ListRows => LimiterClass::Read,
            Operation::UpsertRows => LimiterClass::Write,
            Operation::DeleteRows => LimiterClass::Write,
            Operation::GetRow => LimiterClass::Read,
            Operation::UpdateRow => LimiterClass::Write,
            Operation::DeleteRow => LimiterClass::Write,
            Operation::PushButton => LimiterClass::Write,
            Operation::GetColumn => LimiterClass::Read,
            Operation::ListFormulas => LimiterClass::Read,
            Operation::GetFormula => LimiterClass::Read,
            Operation::ListControls => LimiterClass::Read,
            Operation::GetControl => LimiterClass::Read,
            Operation::ListCustomDocDomains => LimiterClass::Read,
            Operation::AddCustomDocDomain => LimiterClass::Write,
            Operation::DeleteCustomDocDomain => LimiterClass::Write,
            Operation::UpdateCustomDocDomain => LimiterClass::Write,
            Operation::GetCustomDocDomainProvider => LimiterClass::Read,
            Operation::GetFolder => LimiterClass::Read,
            Operation::Whoami => LimiterClass::Read,
            Operation::ResolveBrowserLink => LimiterClass::Read,
            Operation::GetMutationStatus => LimiterClass::Read,
            Operation::TriggerWebhookAutomation => LimiterClass::Write,
            Operation::ListDocAnalytics => LimiterClass::ReadAnalytics,
            Operation::ListPageAnalytics => LimiterClass::ReadAnalytics,
            Operation::ListDocAnalyticsSummary => LimiterClass::ReadAnalytics,
            Operation::ListPackAnalytics => LimiterClass::ReadAnalytics,
            Operation::ListPackAnalyticsSummary => LimiterClass::ReadAnalytics,
            Operation::ListPackFormulaAnalytics => LimiterClass::ReadAnalytics,
            Operation::GetAnalyticsLastUpdated => LimiterClass::ReadAnalytics,
            Operation::ListWorkspaceMembers => LimiterClass::Read,
            Operation::ChangeUserRole => LimiterClass::Write,
            Operation::ListWorkspaceRoleActivity => LimiterClass::Read,
            Operation::ListPacks => LimiterClass::Read,
            Operation::CreatePack => LimiterClass::Write,
            Operation::GetPack => LimiterClass::Read,
            Operation::DeletePack => LimiterClass::Write,
            Operation::UpdatePack => LimiterClass::Write,
            Operation::GetPackConfigurationSchema => LimiterClass::Read,
            Operation::ListPackVersions => LimiterClass::Read,
            Operation::GetNextPackVersion => LimiterClass::Read,
            Operation::GetPackVersionDiffs => LimiterClass::Read,
            Operation::RegisterPackVersion => LimiterClass::Write,
            Operation::PackVersionUploadComplete => LimiterClass::Write,
            Operation::ListPackReleases => LimiterClass::Read,
            Operation::CreatePackRelease => LimiterClass::Write,
            Operation::UpdatePackRelease => LimiterClass::Write,
            Operation::GetPackOauthConfig => LimiterClass::Read,
            Operation::SetPackOauthConfig => LimiterClass::Write,
            Operation::GetPackSystemConnection => LimiterClass::Read,
            Operation::SetPackSystemConnection => LimiterClass::Write,
            Operation::PatchPackSystemConnection => LimiterClass::Write,
            Operation::GetPackPermissions => LimiterClass::Read,
            Operation::AddPackPermission => LimiterClass::Write,
            Operation::DeletePackPermission => LimiterClass::Write,
            Operation::ListUserPackInvitations => LimiterClass::Read,
            Operation::ListPackInvitations => LimiterClass::Read,
            Operation::CreatePackInvitation => LimiterClass::Write,
            Operation::UpdatePackInvitation => LimiterClass::Write,
            Operation::DeletePackInvitation => LimiterClass::Write,
            Operation::ReplyToPackInvitation => LimiterClass::Write,
            Operation::ListPackMakers => LimiterClass::Read,
            Operation::AddPackMaker => LimiterClass::Write,
            Operation::DeletePackMaker => LimiterClass::Write,
            Operation::ListPackCategories => LimiterClass::Read,
            Operation::AddPackCategory => LimiterClass::Write,
            Operation::DeletePackCategory => LimiterClass::Write,
            Operation::UploadPackAsset => LimiterClass::Write,
            Operation::UploadPackSourceCode => LimiterClass::Write,
            Operation::PackAssetUploadComplete => LimiterClass::Write,
            Operation::PackSourceCodeUploadComplete => LimiterClass::Write,
            Operation::GetPackSourceCode => LimiterClass::Read,
            Operation::ListPackListings => LimiterClass::Read,
            Operation::GetPackListing => LimiterClass::Read,
            Operation::ListPackLogs => LimiterClass::Read,
            Operation::ListIngestionLogs => LimiterClass::Read,
            Operation::ListGroupedPackLogs => LimiterClass::Read,
            Operation::ListGroupedIngestionLogs => LimiterClass::Read,
            Operation::ListIngestionBatchExecutions => LimiterClass::Read,
            Operation::ListIngestionParentItems => LimiterClass::Read,
            Operation::GetPackLogDetails => LimiterClass::Read,
            Operation::ListPackFeaturedDocs => LimiterClass::Read,
            Operation::UpdatePackFeaturedDocs => LimiterClass::Write,
            Operation::AddGoLink => LimiterClass::Write,
            Operation::ListAgentSessionIds => LimiterClass::Read,
            Operation::ListAgentLogs => LimiterClass::Read,
            Operation::GetAgentPackLogDetails => LimiterClass::Read,
            Operation::ListRowsRich => LimiterClass::Read,
            Operation::UpsertRowsCorrect => LimiterClass::Write,
            Operation::UpdateRowCorrect => LimiterClass::Write,
        }
    }
}

} // verus!
