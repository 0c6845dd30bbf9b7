//! The configuration, and the parameters of the operations with their
//! form on the wire.

use crate::json::{
    count_model, members_model, no_members, object_of, optional_member, push_optional,
    push_optional_count, push_optional_text, push_text, text_model, value_model, JsonModel,
    JsonValue,
};
use std::time::Duration;
use vstd::prelude::*;
use vstd::string::StringExecFns;

verus! {

/// The duration of a whole number of seconds.
pub uninterp spec fn duration_of_secs(secs: u64) -> Duration;

/// `Duration::from_secs` gives the duration of that many seconds; the
/// contract names it.
pub assume_specification[ Duration::from_secs ](secs: u64) -> (out: Duration)
    ensures
        out == duration_of_secs(secs),
;

/// A `Duration` is `Copy`: its clone is the duration itself.
pub assume_specification[ <Duration as Clone>::clone ](duration: &Duration) -> (out: Duration)
    ensures
        out == *duration,
;

/// The base URL of the API, used where none is configured.
pub open spec fn default_base_url() -> Seq<char> {
    "https://api.wusul.io"@
}

/// The timeout of a request in seconds, used where none is configured.
pub const DEFAULT_TIMEOUT_SECS: u64 = 30;

/// Configuration for the Wusul client.
#[derive(Debug, Clone)]
pub struct WusulConfig {
    pub account_id: String,
    pub shared_secret: String,
    pub base_url: String,
    pub timeout: Duration,
}

impl WusulConfig {
    /// The configuration for an account, with the default base URL and the
    /// default timeout.
    pub fn new(account_id: String, shared_secret: String) -> (out: Self)
        ensures
            out.account_id == account_id,
            out.shared_secret == shared_secret,
            out.base_url@ == default_base_url(),
            out.timeout == duration_of_secs(DEFAULT_TIMEOUT_SECS),
    {
        WusulConfig {
            account_id,
            shared_secret,
            base_url: String::from_str("https://api.wusul.io"),
            timeout: Duration::from_secs(DEFAULT_TIMEOUT_SECS),
        }
    }

    /// The same configuration with another base URL.
    pub fn with_base_url(self, base_url: String) -> (out: Self)
        ensures
            out == (WusulConfig { base_url, ..self }),
    {
        let mut out = self;
        out.base_url = base_url;
        out
    }

    /// The same configuration with another timeout.
    pub fn with_timeout(self, timeout: Duration) -> (out: Self)
        ensures
            out == (WusulConfig { timeout, ..self }),
    {
        let mut out = self;
        out.timeout = timeout;
        out
    }
}

/// Platform type for digital wallets.
#[derive(Debug, Clone, Copy, PartialEq, Eq, Structural)]
pub enum Platform {
    Apple,
    Google,
}

impl Platform {
    /// The name of the platform on the wire.
    pub open spec fn wire_name(self) -> Seq<char> {
        match self {
            Platform::Apple => "apple"@,
            Platform::Google => "google"@,
        }
    }

    /// The name of the platform on the wire.
    pub fn as_str(&self) -> (out: &'static str)
        ensures
            out@ == self.wire_name(),
    {
        match self {
            Platform::Apple => "apple",
            Platform::Google => "google",
        }
    }
}

/// Protocol type for access control.
#[derive(Debug, Clone, Copy, PartialEq, Eq, Structural)]
pub enum Protocol {
    Desfire,
    Seos,
    SmartTap,
}

impl Protocol {
    /// The name of the protocol on the wire.
    pub open spec fn wire_name(self) -> Seq<char> {
        match self {
            Protocol::Desfire => "desfire"@,
            Protocol::Seos => "seos"@,
            Protocol::SmartTap => "smart_tap"@,
        }
    }

    /// The name of the protocol on the wire.
    pub fn as_str(&self) -> (out: &'static str)
        ensures
            out@ == self.wire_name(),
    {
        match self {
            Protocol::Desfire => "desfire",
            Protocol::Seos => "seos",
            Protocol::SmartTap => "smart_tap",
        }
    }
}

/// Use case type for card templates.
#[derive(Debug, Clone, Copy, PartialEq, Eq, Structural)]
pub enum UseCase {
    EmployeeBadge,
    Hotel,
}

impl UseCase {
    /// The name of the use case on the wire.
    pub open spec fn wire_name(self) -> Seq<char> {
        match self {
            UseCase::EmployeeBadge => "employee_badge"@,
            UseCase::Hotel => "hotel"@,
        }
    }

    /// The name of the use case on the wire.
    pub fn as_str(&self) -> (out: &'static str)
        ensures
            out@ == self.wire_name(),
    {
        match self {
            UseCase::EmployeeBadge => "employee_badge",
            UseCase::Hotel => "hotel",
        }
    }
}

/// Classification type for employees.
#[derive(Debug, Clone, Copy, PartialEq, Eq, Structural)]
pub enum Classification {
    FullTime,
    Contractor,
    PartTime,
    Temporary,
}

impl Classification {
    /// The name of the classification on the wire.
    pub open spec fn wire_name(self) -> Seq<char> {
        match self {
            Classification::FullTime => "full_time"@,
            Classification::Contractor => "contractor"@,
            Classification::PartTime => "part_time"@,
            Classification::Temporary => "temporary"@,
        }
    }

    /// The name of the classification on the wire.
    pub fn as_str(&self) -> (out: &'static str)
        ensures
            out@ == self.wire_name(),
    {
        match self {
            Classification::FullTime => "full_time",
            Classification::Contractor => "contractor",
            Classification::PartTime => "part_time",
            Classification::Temporary => "temporary",
        }
    }
}

/// State of an access pass.
#[derive(Debug, Clone, Copy, PartialEq, Eq, Structural)]
pub enum AccessPassState {
    Active,
    Suspended,
    Unlinked,
    Deleted,
    Expired,
}

impl AccessPassState {
    /// The name of the state on the wire.
    pub open spec fn wire_name(self) -> Seq<char> {
        match self {
            AccessPassState::Active => "active"@,
            AccessPassState::Suspended => "suspended"@,
            AccessPassState::Unlinked => "unlinked"@,
            AccessPassState::Deleted => "deleted"@,
            AccessPassState::Expired => "expired"@,
        }
    }

    /// The name of the state on the wire.
    pub fn as_str(&self) -> (out: &'static str)
        ensures
            out@ == self.wire_name(),
    {
        match self {
            AccessPassState::Active => "active",
            AccessPassState::Suspended => "suspended",
            AccessPassState::Unlinked => "unlinked",
            AccessPassState::Deleted => "deleted",
            AccessPassState::Expired => "expired",
        }
    }
}

/// Account tier level.
#[derive(Debug, Clone, Copy, PartialEq, Eq, Structural)]
pub enum AccountTier {
    Basic,
    Professional,
    Enterprise,
}

impl AccountTier {
    /// The name of the tier on the wire.
    pub open spec fn wire_name(self) -> Seq<char> {
        match self {
            AccountTier::Basic => "BASIC"@,
            AccountTier::Professional => "PROFESSIONAL"@,
            AccountTier::Enterprise => "ENTERPRISE"@,
        }
    }

    /// The name of the tier on the wire.
    pub fn as_str(&self) -> (out: &'static str)
        ensures
            out@ == self.wire_name(),
    {
        match self {
            AccountTier::Basic => "BASIC",
            AccountTier::Professional => "PROFESSIONAL",
            AccountTier::Enterprise => "ENTERPRISE",
        }
    }
}

/// Design configuration for a card template.
#[derive(Debug, Clone)]
pub struct CardTemplateDesign {
    pub background_color: Option<String>,
    pub foreground_color: Option<String>,
    pub label_color: Option<String>,
    pub logo_url: Option<String>,
    pub hero_image_url: Option<String>,
    pub strip_image_url: Option<String>,
}

impl Default for CardTemplateDesign {
    /// No field set.
    fn default() -> (out: Self)
        ensures
            out.background_color is None,
            out.foreground_color is None,
            out.label_color is None,
            out.logo_url is None,
            out.hero_image_url is None,
            out.strip_image_url is None,
    {
        CardTemplateDesign {
            background_color: None,
            foreground_color: None,
            label_color: None,
            logo_url: None,
            hero_image_url: None,
            strip_image_url: None,
        }
    }
}

impl CardTemplateDesign {
    /// The members of the design: the fields that are set, each under its
    /// name on the wire, in the order of those names.
    pub open spec fn payload_members(self) -> Seq<(Seq<char>, JsonModel)> {
        optional_member("backgroundColor"@, text_model(self.background_color))
            + optional_member("foregroundColor"@, text_model(self.foreground_color))
            + optional_member("heroImageUrl"@, text_model(self.hero_image_url))
            + optional_member("labelColor"@, text_model(self.label_color))
            + optional_member("logoUrl"@, text_model(self.logo_url))
            + optional_member("stripImageUrl"@, text_model(self.strip_image_url))
    }

    /// The JSON object that stands for the design on the wire.
    pub open spec fn payload_model(self) -> JsonModel {
        JsonModel::Object(self.payload_members())
    }

    /// Builds the JSON object that stands for the design on the wire.
    pub fn to_payload(self) -> (out: JsonValue)
        ensures
            out@ == self.payload_model(),
    {
        let mut members = no_members();
        push_optional_text(&mut members, "backgroundColor", self.background_color);
        push_optional_text(&mut members, "foregroundColor", self.foreground_color);
        push_optional_text(&mut members, "heroImageUrl", self.hero_image_url);
        push_optional_text(&mut members, "labelColor", self.label_color);
        push_optional_text(&mut members, "logoUrl", self.logo_url);
        push_optional_text(&mut members, "stripImageUrl", self.strip_image_url);
        assert(members_model(members@) =~= self.payload_members());
        object_of(members)
    }
}

/// Support information for a card template.
#[derive(Debug, Clone)]
pub struct SupportInfo {
    pub email: Option<String>,
    pub phone: Option<String>,
    pub website: Option<String>,
}

impl Default for SupportInfo {
    /// No field set.
    fn default() -> (out: Self)
        ensures
            out.email is None,
            out.phone is None,
            out.website is None,
    {
        SupportInfo {
            email: None,
            phone: None,
            website: None,
        }
    }
}

impl SupportInfo {
    /// The members of the support information: the fields that are set, each under its
    /// name on the wire, in the order of those names.
    pub open spec fn payload_members(self) -> Seq<(Seq<char>, JsonModel)> {
        optional_member("email"@, text_model(self.email))
            + optional_member("phone"@, text_model(self.phone))
            + optional_member("website"@, text_model(self.website))
    }

    /// The JSON object that stands for the support information on the wire.
    pub open spec fn payload_model(self) -> JsonModel {
        JsonModel::Object(self.payload_members())
    }

    /// Builds the JSON object that stands for the support information on the wire.
    pub fn to_payload(self) -> (out: JsonValue)
        ensures
            out@ == self.payload_model(),
    {
        let mut members = no_members();
        push_optional_text(&mut members, "email", self.email);
        push_optional_text(&mut members, "phone", self.phone);
        push_optional_text(&mut members, "website", self.website);
        assert(members_model(members@) =~= self.payload_members());
        object_of(members)
    }
}

/// Parameters for issuing a new access pass.
#[derive(Debug, Clone)]
pub struct IssueAccessPassParams {
    pub card_template_id: String,
    pub full_name: String,
    pub start_date: String,
    pub expiration_date: String,
    pub employee_id: Option<String>,
    pub tag_id: Option<String>,
    pub site_code: Option<String>,
    pub card_number: Option<String>,
    pub email: Option<String>,
    pub phone_number: Option<String>,
    pub classification: Option<Classification>,
    pub metadata: Option<Vec<(String, JsonValue)>>,
}

impl Default for IssueAccessPassParams {
    /// The required texts empty, and no optional field set.
    fn default() -> (out: Self)
        ensures
            out.card_template_id@ == Seq::<char>::empty(),
            out.full_name@ == Seq::<char>::empty(),
            out.start_date@ == Seq::<char>::empty(),
            out.expiration_date@ == Seq::<char>::empty(),
            out.employee_id is None,
            out.tag_id is None,
            out.site_code is None,
            out.card_number is None,
            out.email is None,
            out.phone_number is None,
            out.classification is None,
            out.metadata is None,
    {
        IssueAccessPassParams {
            card_template_id: String::new(),
            full_name: String::new(),
            start_date: String::new(),
            expiration_date: String::new(),
            employee_id: None,
            tag_id: None,
            site_code: None,
            card_number: None,
            email: None,
            phone_number: None,
            classification: None,
            metadata: None,
        }
    }
}

impl IssueAccessPassParams {
    /// The members of the parameters: the fields that are set, each under its
    /// name on the wire, in the order of those names.
    pub open spec fn payload_members(self) -> Seq<(Seq<char>, JsonModel)> {
        optional_member("cardNumber"@, text_model(self.card_number))
            + seq![("cardTemplateId"@, JsonModel::Text(self.card_template_id@))]
            + optional_member("classification"@, classification_model(self.classification))
            + optional_member("email"@, text_model(self.email))
            + optional_member("employeeId"@, text_model(self.employee_id))
            + seq![("expirationDate"@, JsonModel::Text(self.expiration_date@))]
            + seq![("fullName"@, JsonModel::Text(self.full_name@))]
            + optional_member("metadata"@, metadata_model(self.metadata))
            + optional_member("phoneNumber"@, text_model(self.phone_number))
            + optional_member("siteCode"@, text_model(self.site_code))
            + seq![("startDate"@, JsonModel::Text(self.start_date@))]
            + optional_member("tagId"@, text_model(self.tag_id))
    }

    /// The JSON object that stands for the parameters on the wire.
    pub open spec fn payload_model(self) -> JsonModel {
        JsonModel::Object(self.payload_members())
    }

    /// Builds the JSON object that stands for the parameters on the wire.
    pub fn to_payload(self) -> (out: JsonValue)
        ensures
            out@ == self.payload_model(),
    {
        let mut members = no_members();
        push_optional_text(&mut members, "cardNumber", self.card_number);
        push_text(&mut members, "cardTemplateId", self.card_template_id);
        push_optional(&mut members, "classification", classification_value(self.classification));
        push_optional_text(&mut members, "email", self.email);
        push_optional_text(&mut members, "employeeId", self.employee_id);
        push_text(&mut members, "expirationDate", self.expiration_date);
        push_text(&mut members, "fullName", self.full_name);
        push_optional(&mut members, "metadata", metadata_value(self.metadata));
        push_optional_text(&mut members, "phoneNumber", self.phone_number);
        push_optional_text(&mut members, "siteCode", self.site_code);
        push_text(&mut members, "startDate", self.start_date);
        push_optional_text(&mut members, "tagId", self.tag_id);
        assert(members_model(members@) =~= self.payload_members());
        object_of(members)
    }
}

/// Parameters for listing access passes.
#[derive(Debug, Clone)]
pub struct ListAccessPassesParams {
    pub card_template_id: Option<String>,
    pub employee_id: Option<String>,
    pub state: Option<AccessPassState>,
    pub limit: Option<u32>,
    pub offset: Option<u32>,
}

impl Default for ListAccessPassesParams {
    /// No field set.
    fn default() -> (out: Self)
        ensures
            out.card_template_id is None,
            out.employee_id is None,
            out.state is None,
            out.limit is None,
            out.offset is None,
    {
        ListAccessPassesParams {
            card_template_id: None,
            employee_id: None,
            state: None,
            limit: None,
            offset: None,
        }
    }
}

impl ListAccessPassesParams {
    /// The members of the parameters: the fields that are set, each under its
    /// name on the wire, in the order of those names.
    pub open spec fn payload_members(self) -> Seq<(Seq<char>, JsonModel)> {
        optional_member("cardTemplateId"@, text_model(self.card_template_id))
            + optional_member("employeeId"@, text_model(self.employee_id))
            + optional_member("limit"@, count_model(self.limit))
            + optional_member("offset"@, count_model(self.offset))
            + optional_member("state"@, state_model(self.state))
    }

    /// The JSON object that stands for the parameters on the wire.
    pub open spec fn payload_model(self) -> JsonModel {
        JsonModel::Object(self.payload_members())
    }

    /// Builds the JSON object that stands for the parameters on the wire.
    pub fn to_payload(self) -> (out: JsonValue)
        ensures
            out@ == self.payload_model(),
    {
        let mut members = no_members();
        push_optional_text(&mut members, "cardTemplateId", self.card_template_id);
        push_optional_text(&mut members, "employeeId", self.employee_id);
        push_optional_count(&mut members, "limit", self.limit);
        push_optional_count(&mut members, "offset", self.offset);
        push_optional(&mut members, "state", state_value(self.state));
        assert(members_model(members@) =~= self.payload_members());
        object_of(members)
    }
}

/// Parameters for updating an access pass.
#[derive(Debug, Clone)]
pub struct UpdateAccessPassParams {
    pub access_pass_id: String,
    pub full_name: Option<String>,
    pub email: Option<String>,
    pub phone_number: Option<String>,
    pub classification: Option<Classification>,
    pub start_date: Option<String>,
    pub expiration_date: Option<String>,
    pub metadata: Option<Vec<(String, JsonValue)>>,
}

impl Default for UpdateAccessPassParams {
    /// The required texts empty, and no optional field set.
    fn default() -> (out: Self)
        ensures
            out.access_pass_id@ == Seq::<char>::empty(),
            out.full_name is None,
            out.email is None,
            out.phone_number is None,
            out.classification is None,
            out.start_date is None,
            out.expiration_date is None,
            out.metadata is None,
    {
        UpdateAccessPassParams {
            access_pass_id: String::new(),
            full_name: None,
            email: None,
            phone_number: None,
            classification: None,
            start_date: None,
            expiration_date: None,
            metadata: None,
        }
    }
}

impl UpdateAccessPassParams {
    /// The members of the parameters: the fields that are set, each under its
    /// name on the wire, in the order of those names.
    pub open spec fn payload_members(self) -> Seq<(Seq<char>, JsonModel)> {
        seq![("accessPassId"@, JsonModel::Text(self.access_pass_id@))]
            + optional_member("classification"@, classification_model(self.classification))
            + optional_member("email"@, text_model(self.email))
            + optional_member("expirationDate"@, text_model(self.expiration_date))
            + optional_member("fullName"@, text_model(self.full_name))
            + optional_member("metadata"@, metadata_model(self.metadata))
            + optional_member("phoneNumber"@, text_model(self.phone_number))
            + optional_member("startDate"@, text_model(self.start_date))
    }

    /// The JSON object that stands for the parameters on the wire.
    pub open spec fn payload_model(self) -> JsonModel {
        JsonModel::Object(self.payload_members())
    }

    /// Builds the JSON object that stands for the parameters on the wire.
    pub fn to_payload(self) -> (out: JsonValue)
        ensures
            out@ == self.payload_model(),
    {
        let mut members = no_members();
        push_text(&mut members, "accessPassId", self.access_pass_id);
        push_optional(&mut members, "classification", classification_value(self.classification));
        push_optional_text(&mut members, "email", self.email);
        push_optional_text(&mut members, "expirationDate", self.expiration_date);
        push_optional_text(&mut members, "fullName", self.full_name);
        push_optional(&mut members, "metadata", metadata_value(self.metadata));
        push_optional_text(&mut members, "phoneNumber", self.phone_number);
        push_optional_text(&mut members, "startDate", self.start_date);
        assert(members_model(members@) =~= self.payload_members());
        object_of(members)
    }
}

/// Parameters for updating a card template.
#[derive(Debug, Clone)]
pub struct UpdateCardTemplateParams {
    pub card_template_id: String,
    pub name: Option<String>,
    pub design: Option<CardTemplateDesign>,
    pub support_info: Option<SupportInfo>,
    pub metadata: Option<Vec<(String, JsonValue)>>,
}

impl UpdateCardTemplateParams {
    /// The members of the parameters: the fields that are set, each under its
    /// name on the wire, in the order of those names.
    pub open spec fn payload_members(self) -> Seq<(Seq<char>, JsonModel)> {
        seq![("cardTemplateId"@, JsonModel::Text(self.card_template_id@))]
            + optional_member("design"@, design_model(self.design))
            + optional_member("metadata"@, metadata_model(self.metadata))
            + optional_member("name"@, text_model(self.name))
            + optional_member("supportInfo"@, support_model(self.support_info))
    }

    /// The JSON object that stands for the parameters on the wire.
    pub open spec fn payload_model(self) -> JsonModel {
        JsonModel::Object(self.payload_members())
    }

    /// Builds the JSON object that stands for the parameters on the wire.
    pub fn to_payload(self) -> (out: JsonValue)
        ensures
            out@ == self.payload_model(),
    {
        let mut members = no_members();
        push_text(&mut members, "cardTemplateId", self.card_template_id);
        push_optional(&mut members, "design", design_value(self.design));
        push_optional(&mut members, "metadata", metadata_value(self.metadata));
        push_optional_text(&mut members, "name", self.name);
        push_optional(&mut members, "supportInfo", support_value(self.support_info));
        assert(members_model(members@) =~= self.payload_members());
        object_of(members)
    }
}

/// Parameters for reading the event log.
#[derive(Debug, Clone)]
pub struct ReadEventLogParams {
    pub access_pass_id: Option<String>,
    pub event_type: Option<String>,
    pub start_date: Option<String>,
    pub end_date: Option<String>,
    pub limit: Option<u32>,
    pub offset: Option<u32>,
}

impl Default for ReadEventLogParams {
    /// No field set.
    fn default() -> (out: Self)
        ensures
            out.access_pass_id is None,
            out.event_type is None,
            out.start_date is None,
            out.end_date is None,
            out.limit is None,
            out.offset is None,
    {
        ReadEventLogParams {
            access_pass_id: None,
            event_type: None,
            start_date: None,
            end_date: None,
            limit: None,
            offset: None,
        }
    }
}

impl ReadEventLogParams {
    /// The members of the parameters: the fields that are set, each under its
    /// name on the wire, in the order of those names.
    pub open spec fn payload_members(self) -> Seq<(Seq<char>, JsonModel)> {
        optional_member("accessPassId"@, text_model(self.access_pass_id))
            + optional_member("endDate"@, text_model(self.end_date))
            + optional_member("eventType"@, text_model(self.event_type))
            + optional_member("limit"@, count_model(self.limit))
            + optional_member("offset"@, count_model(self.offset))
            + optional_member("startDate"@, text_model(self.start_date))
    }

    /// The JSON object that stands for the parameters on the wire.
    pub open spec fn payload_model(self) -> JsonModel {
        JsonModel::Object(self.payload_members())
    }

    /// Builds the JSON object that stands for the parameters on the wire.
    pub fn to_payload(self) -> (out: JsonValue)
        ensures
            out@ == self.payload_model(),
    {
        let mut members = no_members();
        push_optional_text(&mut members, "accessPassId", self.access_pass_id);
        push_optional_text(&mut members, "endDate", self.end_date);
        push_optional_text(&mut members, "eventType", self.event_type);
        push_optional_count(&mut members, "limit", self.limit);
        push_optional_count(&mut members, "offset", self.offset);
        push_optional_text(&mut members, "startDate", self.start_date);
        assert(members_model(members@) =~= self.payload_members());
        object_of(members)
    }
}

/// Parameters for creating a card template.
#[derive(Debug, Clone)]
pub struct CreateCardTemplateParams {
    pub name: String,
    pub platform: Platform,
    pub use_case: UseCase,
    pub protocol: Protocol,
    pub design: Option<CardTemplateDesign>,
    pub support_info: Option<SupportInfo>,
    pub metadata: Option<Vec<(String, JsonValue)>>,
}

impl CreateCardTemplateParams {
    /// The members of the parameters: the fields that are set, each under its
    /// name on the wire, in the order of those names.
    pub open spec fn payload_members(self) -> Seq<(Seq<char>, JsonModel)> {
        optional_member("design"@, design_model(self.design))
            + optional_member("metadata"@, metadata_model(self.metadata))
            + seq![("name"@, JsonModel::Text(self.name@))]
            + seq![("platform"@, JsonModel::Text(self.platform.wire_name()))]
            + seq![("protocol"@, JsonModel::Text(self.protocol.wire_name()))]
            + optional_member("supportInfo"@, support_model(self.support_info))
            + seq![("useCase"@, JsonModel::Text(self.use_case.wire_name()))]
    }

    /// The JSON object that stands for the parameters on the wire.
    pub open spec fn payload_model(self) -> JsonModel {
        JsonModel::Object(self.payload_members())
    }

    /// Builds the JSON object that stands for the parameters on the wire.
    pub fn to_payload(self) -> (out: JsonValue)
        ensures
            out@ == self.payload_model(),
    {
        let mut members = no_members();
        push_optional(&mut members, "design", design_value(self.design));
        push_optional(&mut members, "metadata", metadata_value(self.metadata));
        push_text(&mut members, "name", self.name);
        push_text(&mut members, "platform", String::from_str(self.platform.as_str()));
        push_text(&mut members, "protocol", String::from_str(self.protocol.as_str()));
        push_optional(&mut members, "supportInfo", support_value(self.support_info));
        push_text(&mut members, "useCase", String::from_str(self.use_case.as_str()));
        assert(members_model(members@) =~= self.payload_members());
        object_of(members)
    }
}

/// The model of an optional classification: its name on the wire.
pub open spec fn classification_model(classification: Option<Classification>) -> Option<
    JsonModel,
> {
    match classification {
        Some(c) => Some(JsonModel::Text(c.wire_name())),
        None => None,
    }
}

/// The model of an optional state: its name on the wire.
pub open spec fn state_model(state: Option<AccessPassState>) -> Option<JsonModel> {
    match state {
        Some(s) => Some(JsonModel::Text(s.wire_name())),
        None => None,
    }
}

/// The model of an optional design: its object.
pub open spec fn design_model(design: Option<CardTemplateDesign>) -> Option<JsonModel> {
    match design {
        Some(d) => Some(d.payload_model()),
        None => None,
    }
}

/// The model of optional support information: its object.
pub open spec fn support_model(support: Option<SupportInfo>) -> Option<JsonModel> {
    match support {
        Some(s) => Some(s.payload_model()),
        None => None,
    }
}

/// The model of optional metadata: the object of its entries.
pub open spec fn metadata_model(metadata: Option<Vec<(String, JsonValue)>>) -> Option<JsonModel> {
    match metadata {
        Some(entries) => Some(JsonModel::Object(members_model(entries@))),
        None => None,
    }
}

fn classification_value(classification: Option<Classification>) -> (out: Option<JsonValue>)
    ensures
        value_model(out) == classification_model(classification),
{
    match classification {
        Some(c) => Some(JsonValue::String(String::from_str(c.as_str()))),
        None => None,
    }
}

fn state_value(state: Option<AccessPassState>) -> (out: Option<JsonValue>)
    ensures
        value_model(out) == state_model(state),
{
    match state {
        Some(s) => Some(JsonValue::String(String::from_str(s.as_str()))),
        None => None,
    }
}

fn design_value(design: Option<CardTemplateDesign>) -> (out: Option<JsonValue>)
    ensures
        value_model(out) == design_model(design),
{
    match design {
        Some(d) => Some(d.to_payload()),
        None => None,
    }
}

fn support_value(support: Option<SupportInfo>) -> (out: Option<JsonValue>)
    ensures
        value_model(out) == support_model(support),
{
    match support {
        Some(s) => Some(s.to_payload()),
        None => None,
    }
}

fn metadata_value(metadata: Option<Vec<(String, JsonValue)>>) -> (out: Option<JsonValue>)
    ensures
        value_model(out) == metadata_model(metadata),
{
    match metadata {
        Some(entries) => Some(object_of(entries)),
        None => None,
    }
}

} // verus!
