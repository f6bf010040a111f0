//! The closed set of S3 operations the proxy recognizes.
//!
//! Every request that passes the router carries exactly one of these
//! tags; the cache layer dispatches on it.

use vstd::prelude::*;

verus! {

/// One tag per supported S3 operation.
#[derive(Clone, Copy, PartialEq, Eq, Structural, Debug, Hash)]
pub enum OperationType {
    AbortMultipartUpload,
    CompleteMultipartUpload,
    CopyObject,
    CreateBucket,
    CreateMultipartUpload,
    DeleteBucket,
    DeleteBucketAnalyticsConfiguration,
    DeleteBucketCors,
    DeleteBucketEncryption,
    DeleteBucketIntelligentTieringConfiguration,
    DeleteBucketInventoryConfiguration,
    DeleteBucketLifecycle,
    DeleteBucketMetricsConfiguration,
    DeleteBucketOwnershipControls,
    DeleteBucketPolicy,
    DeleteBucketReplication,
    DeleteBucketTagging,
    DeleteBucketWebsite,
    DeleteObject,
    DeleteObjectTagging,
    DeleteObjects,
    DeletePublicAccessBlock,
    GetBucketAccelerateConfiguration,
    GetBucketAcl,
    GetBucketAnalyticsConfiguration,
    GetBucketCors,
    GetBucketEncryption,
    GetBucketIntelligentTieringConfiguration,
    GetBucketInventoryConfiguration,
    GetBucketLifecycleConfiguration,
    GetBucketLocation,
    GetBucketLogging,
    GetBucketMetricsConfiguration,
    GetBucketNotificationConfiguration,
    GetBucketOwnershipControls,
    GetBucketPolicy,
    GetBucketPolicyStatus,
    GetBucketReplication,
    GetBucketRequestPayment,
    GetBucketTagging,
    GetBucketVersioning,
    GetBucketWebsite,
    GetObject,
    GetObjectAcl,
    GetObjectAttributes,
    GetObjectLegalHold,
    GetObjectLockConfiguration,
    GetObjectRetention,
    GetObjectTagging,
    GetObjectTorrent,
    GetPublicAccessBlock,
    HeadBucket,
    HeadObject,
    ListBucketAnalyticsConfigurations,
    ListBucketIntelligentTieringConfigurations,
    ListBucketInventoryConfigurations,
    ListBucketMetricsConfigurations,
    ListBuckets,
    ListMultipartUploads,
    ListObjectVersions,
    ListObjects,
    ListObjectsV2,
    ListParts,
    PutBucketAccelerateConfiguration,
    PutBucketAcl,
    PutBucketAnalyticsConfiguration,
    PutBucketCors,
    PutBucketEncryption,
    PutBucketIntelligentTieringConfiguration,
    PutBucketInventoryConfiguration,
    PutBucketLifecycleConfiguration,
    PutBucketLogging,
    PutBucketMetricsConfiguration,
    PutBucketNotificationConfiguration,
    PutBucketOwnershipControls,
    PutBucketPolicy,
    PutBucketReplication,
    PutBucketRequestPayment,
    PutBucketTagging,
    PutBucketVersioning,
    PutBucketWebsite,
    PutObject,
    PutObjectAcl,
    PutObjectLegalHold,
    PutObjectLockConfiguration,
    PutObjectRetention,
    PutObjectTagging,
    PutPublicAccessBlock,
    RestoreObject,
    SelectObjectContent,
    UploadPart,
    UploadPartCopy,
    WriteGetObjectResponse,
}

impl OperationType {
    /// The operation's wire name.
    pub open spec fn spec_name(self) -> Seq<char> {
        match self {
            OperationType::AbortMultipartUpload => "AbortMultipartUpload"@,
            OperationType::CompleteMultipartUpload => "CompleteMultipartUpload"@,
            OperationType::CopyObject => "CopyObject"@,
            OperationType::CreateBucket => "CreateBucket"@,
            OperationType::CreateMultipartUpload => "CreateMultipartUpload"@,
            OperationType::DeleteBucket => "DeleteBucket"@,
            OperationType::DeleteBucketAnalyticsConfiguration => "DeleteBucketAnalyticsConfiguration"@,
            OperationType::DeleteBucketCors => "DeleteBucketCors"@,
            OperationType::DeleteBucketEncryption => "DeleteBucketEncryption"@,
            OperationType::DeleteBucketIntelligentTieringConfiguration => "DeleteBucketIntelligentTieringConfiguration"@,
            OperationType::DeleteBucketInventoryConfiguration => "DeleteBucketInventoryConfiguration"@,
            OperationType::DeleteBucketLifecycle => "DeleteBucketLifecycle"@,
            OperationType::DeleteBucketMetricsConfiguration => "DeleteBucketMetricsConfiguration"@,
            OperationType::DeleteBucketOwnershipControls => "DeleteBucketOwnershipControls"@,
            OperationType::DeleteBucketPolicy => "DeleteBucketPolicy"@,
            OperationType::DeleteBucketReplication => "DeleteBucketReplication"@,
            OperationType::DeleteBucketTagging => "DeleteBucketTagging"@,
            OperationType::DeleteBucketWebsite => "DeleteBucketWebsite"@,
            OperationType::DeleteObject => "DeleteObject"@,
            OperationType::DeleteObjectTagging => "DeleteObjectTagging"@,
            OperationType::DeleteObjects => "DeleteObjects"@,
            OperationType::DeletePublicAccessBlock => "DeletePublicAccessBlock"@,
            OperationType::GetBucketAccelerateConfiguration => "GetBucketAccelerateConfiguration"@,
            OperationType::GetBucketAcl => "GetBucketAcl"@,
            OperationType::GetBucketAnalyticsConfiguration => "GetBucketAnalyticsConfiguration"@,
            OperationType::GetBucketCors => "GetBucketCors"@,
            OperationType::GetBucketEncryption => "GetBucketEncryption"@,
            OperationType::GetBucketIntelligentTieringConfiguration => "GetBucketIntelligentTieringConfiguration"@,
            OperationType::GetBucketInventoryConfiguration => "GetBucketInventoryConfiguration"@,
            OperationType::GetBucketLifecycleConfiguration => "GetBucketLifecycleConfiguration"@,
            OperationType::GetBucketLocation => "GetBucketLocation"@,
            OperationType::GetBucketLogging => "GetBucketLogging"@,
            OperationType::GetBucketMetricsConfiguration => "GetBucketMetricsConfiguration"@,
            OperationType::GetBucketNotificationConfiguration => "GetBucketNotificationConfiguration"@,
            OperationType::GetBucketOwnershipControls => "GetBucketOwnershipControls"@,
            OperationType::GetBucketPolicy => "GetBucketPolicy"@,
            OperationType::GetBucketPolicyStatus => "GetBucketPolicyStatus"@,
            OperationType::GetBucketReplication => "GetBucketReplication"@,
            OperationType::GetBucketRequestPayment => "GetBucketRequestPayment"@,
            OperationType::GetBucketTagging => "GetBucketTagging"@,
            OperationType::GetBucketVersioning => "GetBucketVersioning"@,
            OperationType::GetBucketWebsite => "GetBucketWebsite"@,
            OperationType::GetObject => "GetObject"@,
            OperationType::GetObjectAcl => "GetObjectAcl"@,
            OperationType::GetObjectAttributes => "GetObjectAttributes"@,
            OperationType::GetObjectLegalHold => "GetObjectLegalHold"@,
            OperationType::GetObjectLockConfiguration => "GetObjectLockConfiguration"@,
            OperationType::GetObjectRetention => "GetObjectRetention"@,
            OperationType::GetObjectTagging => "GetObjectTagging"@,
            OperationType::GetObjectTorrent => "GetObjectTorrent"@,
            OperationType::GetPublicAccessBlock => "GetPublicAccessBlock"@,
            OperationType::HeadBucket => "HeadBucket"@,
            OperationType::HeadObject => "HeadObject"@,
            OperationType::ListBucketAnalyticsConfigurations => "ListBucketAnalyticsConfigurations"@,
            OperationType::ListBucketIntelligentTieringConfigurations => "ListBucketIntelligentTieringConfigurations"@,
            OperationType::ListBucketInventoryConfigurations => "ListBucketInventoryConfigurations"@,
            OperationType::ListBucketMetricsConfigurations => "ListBucketMetricsConfigurations"@,
            OperationType::ListBuckets => "ListBuckets"@,
            OperationType::ListMultipartUploads => "ListMultipartUploads"@,
            OperationType::ListObjectVersions => "ListObjectVersions"@,
            OperationType::ListObjects => "ListObjects"@,
            OperationType::ListObjectsV2 => "ListObjectsV2"@,
            OperationType::ListParts => "ListParts"@,
            OperationType::PutBucketAccelerateConfiguration => "PutBucketAccelerateConfiguration"@,
            OperationType::PutBucketAcl => "PutBucketAcl"@,
            OperationType::PutBucketAnalyticsConfiguration => "PutBucketAnalyticsConfiguration"@,
            OperationType::PutBucketCors => "PutBucketCors"@,
            OperationType::PutBucketEncryption => "PutBucketEncryption"@,
            OperationType::PutBucketIntelligentTieringConfiguration => "PutBucketIntelligentTieringConfiguration"@,
            OperationType::PutBucketInventoryConfiguration => "PutBucketInventoryConfiguration"@,
            OperationType::PutBucketLifecycleConfiguration => "PutBucketLifecycleConfiguration"@,
            OperationType::PutBucketLogging => "PutBucketLogging"@,
            OperationType::PutBucketMetricsConfiguration => "PutBucketMetricsConfiguration"@,
            OperationType::PutBucketNotificationConfiguration => "PutBucketNotificationConfiguration"@,
            OperationType::PutBucketOwnershipControls => "PutBucketOwnershipControls"@,
            OperationType::PutBucketPolicy => "PutBucketPolicy"@,
            OperationType::PutBucketReplication => "PutBucketReplication"@,
            OperationType::PutBucketRequestPayment => "PutBucketRequestPayment"@,
            OperationType::PutBucketTagging => "PutBucketTagging"@,
            OperationType::PutBucketVersioning => "PutBucketVersioning"@,
            OperationType::PutBucketWebsite => "PutBucketWebsite"@,
            OperationType::PutObject => "PutObject"@,
            OperationType::PutObjectAcl => "PutObjectAcl"@,
            OperationType::PutObjectLegalHold => "PutObjectLegalHold"@,
            OperationType::PutObjectLockConfiguration => "PutObjectLockConfiguration"@,
            OperationType::PutObjectRetention => "PutObjectRetention"@,
            OperationType::PutObjectTagging => "PutObjectTagging"@,
            OperationType::PutPublicAccessBlock => "PutPublicAccessBlock"@,
            OperationType::RestoreObject => "RestoreObject"@,
            OperationType::SelectObjectContent => "SelectObjectContent"@,
            OperationType::UploadPart => "UploadPart"@,
            OperationType::UploadPartCopy => "UploadPartCopy"@,
            OperationType::WriteGetObjectResponse => "WriteGetObjectResponse"@,
        }
    }

    /// The operation's wire name.
    pub fn name(&self) -> (r: &'static str)
        ensures
            r@ == self.spec_name(),
    {
        match self {
            OperationType::AbortMultipartUpload => "AbortMultipartUpload",
            OperationType::CompleteMultipartUpload => "CompleteMultipartUpload",
            OperationType::CopyObject => "CopyObject",
            OperationType::CreateBucket => "CreateBucket",
            OperationType::CreateMultipartUpload => "CreateMultipartUpload",
            OperationType::DeleteBucket => "DeleteBucket",
            OperationType::DeleteBucketAnalyticsConfiguration => "DeleteBucketAnalyticsConfiguration",
            OperationType::DeleteBucketCors => "DeleteBucketCors",
            OperationType::DeleteBucketEncryption => "DeleteBucketEncryption",
            OperationType::DeleteBucketIntelligentTieringConfiguration => "DeleteBucketIntelligentTieringConfiguration",
            OperationType::DeleteBucketInventoryConfiguration => "DeleteBucketInventoryConfiguration",
            OperationType::DeleteBucketLifecycle => "DeleteBucketLifecycle",
            OperationType::DeleteBucketMetricsConfiguration => "DeleteBucketMetricsConfiguration",
            OperationType::DeleteBucketOwnershipControls => "DeleteBucketOwnershipControls",
            OperationType::DeleteBucketPolicy => "DeleteBucketPolicy",
            OperationType::DeleteBucketReplication => "DeleteBucketReplication",
            OperationType::DeleteBucketTagging => "DeleteBucketTagging",
            OperationType::DeleteBucketWebsite => "DeleteBucketWebsite",
            OperationType::DeleteObject => "DeleteObject",
            OperationType::DeleteObjectTagging => "DeleteObjectTagging",
            OperationType::DeleteObjects => "DeleteObjects",
            OperationType::DeletePublicAccessBlock => "DeletePublicAccessBlock",
            OperationType::GetBucketAccelerateConfiguration => "GetBucketAccelerateConfiguration",
            OperationType::GetBucketAcl => "GetBucketAcl",
            OperationType::GetBucketAnalyticsConfiguration => "GetBucketAnalyticsConfiguration",
            OperationType::GetBucketCors => "GetBucketCors",
            OperationType::GetBucketEncryption => "GetBucketEncryption",
            OperationType::GetBucketIntelligentTieringConfiguration => "GetBucketIntelligentTieringConfiguration",
            OperationType::GetBucketInventoryConfiguration => "GetBucketInventoryConfiguration",
            OperationType::GetBucketLifecycleConfiguration => "GetBucketLifecycleConfiguration",
            OperationType::GetBucketLocation => "GetBucketLocation",
            OperationType::GetBucketLogging => "GetBucketLogging",
            OperationType::GetBucketMetricsConfiguration => "GetBucketMetricsConfiguration",
            OperationType::GetBucketNotificationConfiguration => "GetBucketNotificationConfiguration",
            OperationType::GetBucketOwnershipControls => "GetBucketOwnershipControls",
            OperationType::GetBucketPolicy => "GetBucketPolicy",
            OperationType::GetBucketPolicyStatus => "GetBucketPolicyStatus",
            OperationType::GetBucketReplication => "GetBucketReplication",
            OperationType::GetBucketRequestPayment => "GetBucketRequestPayment",
            OperationType::GetBucketTagging => "GetBucketTagging",
            OperationType::GetBucketVersioning => "GetBucketVersioning",
            OperationType::GetBucketWebsite => "GetBucketWebsite",
            OperationType::GetObject => "GetObject",
            OperationType::GetObjectAcl => "GetObjectAcl",
            OperationType::GetObjectAttributes => "GetObjectAttributes",
            OperationType::GetObjectLegalHold => "GetObjectLegalHold",
            OperationType::GetObjectLockConfiguration => "GetObjectLockConfiguration",
            OperationType::GetObjectRetention => "GetObjectRetention",
            OperationType::GetObjectTagging => "GetObjectTagging",
            OperationType::GetObjectTorrent => "GetObjectTorrent",
            OperationType::GetPublicAccessBlock => "GetPublicAccessBlock",
            OperationType::HeadBucket => "HeadBucket",
            OperationType::HeadObject => "HeadObject",
            OperationType::ListBucketAnalyticsConfigurations => "ListBucketAnalyticsConfigurations",
            OperationType::ListBucketIntelligentTieringConfigurations => "ListBucketIntelligentTieringConfigurations",
            OperationType::ListBucketInventoryConfigurations => "ListBucketInventoryConfigurations",
            OperationType::ListBucketMetricsConfigurations => "ListBucketMetricsConfigurations",
            OperationType::ListBuckets => "ListBuckets",
            OperationType::ListMultipartUploads => "ListMultipartUploads",
            OperationType::ListObjectVersions => "ListObjectVersions",
            OperationType::ListObjects => "ListObjects",
            OperationType::ListObjectsV2 => "ListObjectsV2",
            OperationType::ListParts => "ListParts",
            OperationType::PutBucketAccelerateConfiguration => "PutBucketAccelerateConfiguration",
            OperationType::PutBucketAcl => "PutBucketAcl",
            OperationType::PutBucketAnalyticsConfiguration => "PutBucketAnalyticsConfiguration",
            OperationType::PutBucketCors => "PutBucketCors",
            OperationType::PutBucketEncryption => "PutBucketEncryption",
            OperationType::PutBucketIntelligentTieringConfiguration => "PutBucketIntelligentTieringConfiguration",
            OperationType::PutBucketInventoryConfiguration => "PutBucketInventoryConfiguration",
            OperationType::PutBucketLifecycleConfiguration => "PutBucketLifecycleConfiguration",
            OperationType::PutBucketLogging => "PutBucketLogging",
            OperationType::PutBucketMetricsConfiguration => "PutBucketMetricsConfiguration",
            OperationType::PutBucketNotificationConfiguration => "PutBucketNotificationConfiguration",
            OperationType::PutBucketOwnershipControls => "PutBucketOwnershipControls",
            OperationType::PutBucketPolicy => "PutBucketPolicy",
            OperationType::PutBucketReplication => "PutBucketReplication",
            OperationType::PutBucketRequestPayment => "PutBucketRequestPayment",
            OperationType::PutBucketTagging => "PutBucketTagging",
            OperationType::PutBucketVersioning => "PutBucketVersioning",
            OperationType::PutBucketWebsite => "PutBucketWebsite",
            OperationType::PutObject => "PutObject",
            OperationType::PutObjectAcl => "PutObjectAcl",
            OperationType::PutObjectLegalHold => "PutObjectLegalHold",
            OperationType::PutObjectLockConfiguration => "PutObjectLockConfiguration",
            OperationType::PutObjectRetention => "PutObjectRetention",
            OperationType::PutObjectTagging => "PutObjectTagging",
            OperationType::PutPublicAccessBlock => "PutPublicAccessBlock",
            OperationType::RestoreObject => "RestoreObject",
            OperationType::SelectObjectContent => "SelectObjectContent",
            OperationType::UploadPart => "UploadPart",
            OperationType::UploadPartCopy => "UploadPartCopy",
            OperationType::WriteGetObjectResponse => "WriteGetObjectResponse",
        }
    }

    /// Whether the cache layer ever stores responses of this operation.
    pub open spec fn spec_cacheable(self) -> bool {
        match self {
            OperationType::GetObject => true,
            OperationType::HeadObject => true,
            OperationType::ListObjects => true,
            OperationType::ListObjectsV2 => true,
            OperationType::ListObjectVersions => true,
            OperationType::HeadBucket => true,
            OperationType::ListBuckets => true,
            _ => false,
        }
    }

    /// Whether the cache layer ever stores responses of this operation.
    pub fn is_cacheable(&self) -> (r: bool)
        ensures
            r == self.spec_cacheable(),
    {
        match self {
            OperationType::GetObject => true,
            OperationType::HeadObject => true,
            OperationType::ListObjects => true,
            OperationType::ListObjectsV2 => true,
            OperationType::ListObjectVersions => true,
            OperationType::HeadBucket => true,
            OperationType::ListBuckets => true,
            _ => false,
        }
    }

    /// The status a successful response of this operation carries.
    /// `PutBucketPolicy` deliberately answers `204 No Content` although
    /// the upstream schema says `200 OK`; every other operation answers
    /// `200 OK`.
    pub open spec fn spec_success_status(self) -> u16 {
        match self {
            OperationType::PutBucketPolicy => 204,
            _ => 200,
        }
    }

    /// The status a successful response of this operation carries.
    pub fn success_status(&self) -> (r: u16)
        ensures
            r == self.spec_success_status(),
    {
        match self {
            OperationType::PutBucketPolicy => 204,
            _ => 200,
        }
    }
}

} // verus!
