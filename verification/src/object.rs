//! The objects that the service speaks of: projects, versions, and what
//! they are made of.

use vstd::prelude::*;
use vstd::string::*;
use crate::decode::{
    decode_named, field, members_of, named, object, optional, optional_field, outcome, required,
    Decode, WireName,
};
use crate::error::{DecodeError, ErrorKind};
use crate::json::{Json, JsonView};
use crate::text::same_text;
use crate::timestamp::Timestamp;

verus! {

/// Window into a listing: how many records to return and how many to skip.
/// Neither is checked here: the service has the last word on both.
#[derive(Debug, Clone, Copy, PartialEq, Eq)]
pub struct Pagination {
    pub limit: i64,
    pub offset: i64,
}

impl Pagination {
    /// Both numbers are non-negative, as the service expects them.
    pub open spec fn is_valid(self) -> bool {
        self.limit >= 0 && self.offset >= 0
    }
}

impl Default for Pagination {
    /// The first page of 25 records.
    fn default() -> (r: Self)
        ensures
            r == (Pagination { limit: 25, offset: 0 }),
            r.is_valid(),
    {
        Pagination { limit: 25, offset: 0 }
    }
}

impl From<(i64, i64)> for Pagination {
    /// A limit and an offset, in this order.
    fn from(value: (i64, i64)) -> (r: Self) {
        Pagination { limit: value.0, offset: value.1 }
    }
}

impl vstd::std_specs::convert::FromSpecImpl<(i64, i64)> for Pagination {
    open spec fn obeys_from_spec() -> bool {
        true
    }

    open spec fn from_spec(value: (i64, i64)) -> Self {
        Pagination { limit: value.0, offset: value.1 }
    }
}

/// How a listing of projects is ordered. Every key but `Slug` puts the
/// highest or most recent first; the service reads a leading dash that way.
#[derive(Debug, Clone, Copy, PartialEq, Eq)]
pub enum ProjectsSort {
    Views,
    Downloads,
    Newest,
    Stars,
    Updated,
    RecentDownloads,
    RecentViews,
    Slug,
}

impl ProjectsSort {
    /// The value of the `sort` parameter that asks for this order.
    pub open spec fn wire_name(self) -> Seq<char> {
        match self {
            ProjectsSort::Views => "-views"@,
            ProjectsSort::Downloads => "-downloads"@,
            ProjectsSort::Newest => "-newest"@,
            ProjectsSort::Stars => "-stars"@,
            ProjectsSort::Updated => "-updated"@,
            ProjectsSort::RecentDownloads => "-recent-downloads"@,
            ProjectsSort::RecentViews => "-recent-views"@,
            ProjectsSort::Slug => "slug"@,
        }
    }

    /// The value of the `sort` parameter that asks for this order.
    pub fn as_str(&self) -> (r: &'static str)
        ensures
            r@ == self.wire_name(),
    {
        match self {
            ProjectsSort::Views => "-views",
            ProjectsSort::Downloads => "-downloads",
            ProjectsSort::Newest => "-newest",
            ProjectsSort::Stars => "-stars",
            ProjectsSort::Updated => "-updated",
            ProjectsSort::RecentDownloads => "-recent-downloads",
            ProjectsSort::RecentViews => "-recent-views",
            ProjectsSort::Slug => "slug",
        }
    }
}

/// The category of a project.
#[derive(Debug, Clone, Copy, PartialEq, Eq)]
pub enum Category {
    AdminTools,
    Chat,
    DevTools,
    Economy,
    Gameplay,
    Games,
    Protection,
    RolePlaying,
    WorldManagement,
    Misc,
    Undefined,
}

impl WireName for Category {
    open spec fn wire_name(self) -> Seq<char> {
        match self {
            Category::AdminTools => "admin_tools"@,
            Category::Chat => "chat"@,
            Category::DevTools => "dev_tools"@,
            Category::Economy => "economy"@,
            Category::Gameplay => "gameplay"@,
            Category::Games => "games"@,
            Category::Protection => "protection"@,
            Category::RolePlaying => "role_playing"@,
            Category::WorldManagement => "world_management"@,
            Category::Misc => "misc"@,
            Category::Undefined => "undefined"@,
        }
    }

    open spec fn from_wire(name: Seq<char>) -> Option<Self> {
        if name == "admin_tools"@ {
            Some(Category::AdminTools)
        } else if name == "chat"@ {
            Some(Category::Chat)
        } else if name == "dev_tools"@ {
            Some(Category::DevTools)
        } else if name == "economy"@ {
            Some(Category::Economy)
        } else if name == "gameplay"@ {
            Some(Category::Gameplay)
        } else if name == "games"@ {
            Some(Category::Games)
        } else if name == "protection"@ {
            Some(Category::Protection)
        } else if name == "role_playing"@ {
            Some(Category::RolePlaying)
        } else if name == "world_management"@ {
            Some(Category::WorldManagement)
        } else if name == "misc"@ {
            Some(Category::Misc)
        } else if name == "undefined"@ {
            Some(Category::Undefined)
        } else {
            None
        }
    }

    fn as_str(&self) -> (r: &'static str) {
        match self {
            Category::AdminTools => "admin_tools",
            Category::Chat => "chat",
            Category::DevTools => "dev_tools",
            Category::Economy => "economy",
            Category::Gameplay => "gameplay",
            Category::Games => "games",
            Category::Protection => "protection",
            Category::RolePlaying => "role_playing",
            Category::WorldManagement => "world_management",
            Category::Misc => "misc",
            Category::Undefined => "undefined",
        }
    }

    fn from_name(name: &str) -> (r: Option<Self>) {
        if same_text(name, "admin_tools") {
            Some(Category::AdminTools)
        } else if same_text(name, "chat") {
            Some(Category::Chat)
        } else if same_text(name, "dev_tools") {
            Some(Category::DevTools)
        } else if same_text(name, "economy") {
            Some(Category::Economy)
        } else if same_text(name, "gameplay") {
            Some(Category::Gameplay)
        } else if same_text(name, "games") {
            Some(Category::Games)
        } else if same_text(name, "protection") {
            Some(Category::Protection)
        } else if same_text(name, "role_playing") {
            Some(Category::RolePlaying)
        } else if same_text(name, "world_management") {
            Some(Category::WorldManagement)
        } else if same_text(name, "misc") {
            Some(Category::Misc)
        } else if same_text(name, "undefined") {
            Some(Category::Undefined)
        } else {
            None
        }
    }

    proof fn lemma_name_round_trip(self, name: Seq<char>) {
        reveal_strlit("admin_tools");
        assert("admin_tools"@.len() == 11 && "admin_tools"@[0] == 'a');
        reveal_strlit("chat");
        assert("chat"@.len() == 4 && "chat"@[0] == 'c');
        reveal_strlit("dev_tools");
        assert("dev_tools"@.len() == 9 && "dev_tools"@[0] == 'd');
        reveal_strlit("economy");
        assert("economy"@.len() == 7 && "economy"@[0] == 'e');
        reveal_strlit("gameplay");
        assert("gameplay"@.len() == 8 && "gameplay"@[0] == 'g');
        reveal_strlit("games");
        assert("games"@.len() == 5 && "games"@[0] == 'g');
        reveal_strlit("protection");
        assert("protection"@.len() == 10 && "protection"@[0] == 'p');
        reveal_strlit("role_playing");
        assert("role_playing"@.len() == 12 && "role_playing"@[0] == 'r');
        reveal_strlit("world_management");
        assert("world_management"@.len() == 16 && "world_management"@[0] == 'w');
        reveal_strlit("misc");
        assert("misc"@.len() == 4 && "misc"@[0] == 'm');
        reveal_strlit("undefined");
        assert("undefined"@.len() == 9 && "undefined"@[0] == 'u');
    }
}

impl DeepView for Category {
    type V = Category;

    open spec fn deep_view(&self) -> Category {
        *self
    }
}

impl Decode for Category {
    open spec fn decoded(j: JsonView) -> Result<Category, DecodeError> {
        named::<Category>(j)
    }

    fn decode(j: &Json) -> (r: Result<Self, DecodeError>) {
        decode_named::<Category>(j)
    }
}

impl Category {
    /// The name as a reader sees it.
    pub open spec fn display_name(self) -> Seq<char> {
        match self {
            Category::AdminTools => "Admin Tools"@,
            Category::Chat => "Chat"@,
            Category::DevTools => "Dev Tools"@,
            Category::Economy => "Economy"@,
            Category::Gameplay => "Gameplay"@,
            Category::Games => "Games"@,
            Category::Protection => "Protection"@,
            Category::RolePlaying => "Role Playing"@,
            Category::WorldManagement => "World Management"@,
            Category::Misc => "Misc"@,
            Category::Undefined => "Undefined"@,
        }
    }

    /// The name as a reader sees it.
    pub fn to_string(&self) -> (r: String)
        ensures
            r@ == self.display_name(),
    {
        let name = match self {
            Category::AdminTools => "Admin Tools",
            Category::Chat => "Chat",
            Category::DevTools => "Dev Tools",
            Category::Economy => "Economy",
            Category::Gameplay => "Gameplay",
            Category::Games => "Games",
            Category::Protection => "Protection",
            Category::RolePlaying => "Role Playing",
            Category::WorldManagement => "World Management",
            Category::Misc => "Misc",
            Category::Undefined => "Undefined",
        };
        String::from_str(name)
    }
}

/// A server software that a project or version is made for.
#[derive(Debug, Clone, Copy, PartialEq, Eq)]
pub enum Platform {
    Paper,
    Waterfall,
    Velocity,
}

impl WireName for Platform {
    open spec fn wire_name(self) -> Seq<char> {
        match self {
            Platform::Paper => "PAPER"@,
            Platform::Waterfall => "WATERFALL"@,
            Platform::Velocity => "VELOCITY"@,
        }
    }

    open spec fn from_wire(name: Seq<char>) -> Option<Self> {
        if name == "PAPER"@ {
            Some(Platform::Paper)
        } else if name == "WATERFALL"@ {
            Some(Platform::Waterfall)
        } else if name == "VELOCITY"@ {
            Some(Platform::Velocity)
        } else {
            None
        }
    }

    fn as_str(&self) -> (r: &'static str) {
        match self {
            Platform::Paper => "PAPER",
            Platform::Waterfall => "WATERFALL",
            Platform::Velocity => "VELOCITY",
        }
    }

    fn from_name(name: &str) -> (r: Option<Self>) {
        if same_text(name, "PAPER") {
            Some(Platform::Paper)
        } else if same_text(name, "WATERFALL") {
            Some(Platform::Waterfall)
        } else if same_text(name, "VELOCITY") {
            Some(Platform::Velocity)
        } else {
            None
        }
    }

    proof fn lemma_name_round_trip(self, name: Seq<char>) {
        reveal_strlit("PAPER");
        assert("PAPER"@.len() == 5 && "PAPER"@[0] == 'P');
        reveal_strlit("WATERFALL");
        assert("WATERFALL"@.len() == 9 && "WATERFALL"@[0] == 'W');
        reveal_strlit("VELOCITY");
        assert("VELOCITY"@.len() == 8 && "VELOCITY"@[0] == 'V');
    }
}

impl DeepView for Platform {
    type V = Platform;

    open spec fn deep_view(&self) -> Platform {
        *self
    }
}

impl Decode for Platform {
    open spec fn decoded(j: JsonView) -> Result<Platform, DecodeError> {
        named::<Platform>(j)
    }

    fn decode(j: &Json) -> (r: Result<Self, DecodeError>) {
        decode_named::<Platform>(j)
    }
}

impl Platform {
    /// The name as a reader sees it.
    pub open spec fn display_name(self) -> Seq<char> {
        match self {
            Platform::Paper => "Paper"@,
            Platform::Waterfall => "Waterfall"@,
            Platform::Velocity => "Velocity"@,
        }
    }

    /// The name as a reader sees it.
    pub fn to_string(&self) -> (r: String)
        ensures
            r@ == self.display_name(),
    {
        let name = match self {
            Platform::Paper => "Paper",
            Platform::Waterfall => "Waterfall",
            Platform::Velocity => "Velocity",
        };
        String::from_str(name)
    }
}

/// The visibility of a project or version.
#[derive(Debug, Clone, Copy, PartialEq, Eq)]
pub enum Visibility {
    Public,
    New,
    NeedsChanges,
    NeedsApproval,
    SoftDelete,
}

impl WireName for Visibility {
    open spec fn wire_name(self) -> Seq<char> {
        match self {
            Visibility::Public => "public"@,
            Visibility::New => "new"@,
            Visibility::NeedsChanges => "needsChanges"@,
            Visibility::NeedsApproval => "needsApproval"@,
            Visibility::SoftDelete => "softDelete"@,
        }
    }

    open spec fn from_wire(name: Seq<char>) -> Option<Self> {
        if name == "public"@ {
            Some(Visibility::Public)
        } else if name == "new"@ {
            Some(Visibility::New)
        } else if name == "needsChanges"@ {
            Some(Visibility::NeedsChanges)
        } else if name == "needsApproval"@ {
            Some(Visibility::NeedsApproval)
        } else if name == "softDelete"@ {
            Some(Visibility::SoftDelete)
        } else {
            None
        }
    }

    fn as_str(&self) -> (r: &'static str) {
        match self {
            Visibility::Public => "public",
            Visibility::New => "new",
            Visibility::NeedsChanges => "needsChanges",
            Visibility::NeedsApproval => "needsApproval",
            Visibility::SoftDelete => "softDelete",
        }
    }

    fn from_name(name: &str) -> (r: Option<Self>) {
        if same_text(name, "public") {
            Some(Visibility::Public)
        } else if same_text(name, "new") {
            Some(Visibility::New)
        } else if same_text(name, "needsChanges") {
            Some(Visibility::NeedsChanges)
        } else if same_text(name, "needsApproval") {
            Some(Visibility::NeedsApproval)
        } else if same_text(name, "softDelete") {
            Some(Visibility::SoftDelete)
        } else {
            None
        }
    }

    proof fn lemma_name_round_trip(self, name: Seq<char>) {
        reveal_strlit("public");
        assert("public"@.len() == 6 && "public"@[0] == 'p');
        reveal_strlit("new");
        assert("new"@.len() == 3 && "new"@[0] == 'n');
        reveal_strlit("needsChanges");
        assert("needsChanges"@.len() == 12 && "needsChanges"@[0] == 'n');
        reveal_strlit("needsApproval");
        assert("needsApproval"@.len() == 13 && "needsApproval"@[0] == 'n');
        reveal_strlit("softDelete");
        assert("softDelete"@.len() == 10 && "softDelete"@[0] == 's');
    }
}

impl DeepView for Visibility {
    type V = Visibility;

    open spec fn deep_view(&self) -> Visibility {
        *self
    }
}

impl Decode for Visibility {
    open spec fn decoded(j: JsonView) -> Result<Visibility, DecodeError> {
        named::<Visibility>(j)
    }

    fn decode(j: &Json) -> (r: Result<Self, DecodeError>) {
        decode_named::<Visibility>(j)
    }
}

/// A tag that a project carries.
#[derive(Debug, Clone, Copy, PartialEq, Eq)]
pub enum ProjectTags {
    Addon,
    Library,
    SupportsFolia,
}

impl WireName for ProjectTags {
    open spec fn wire_name(self) -> Seq<char> {
        match self {
            ProjectTags::Addon => "ADDON"@,
            ProjectTags::Library => "LIBRARY"@,
            ProjectTags::SupportsFolia => "SUPPORTS_FOLIA"@,
        }
    }

    open spec fn from_wire(name: Seq<char>) -> Option<Self> {
        if name == "ADDON"@ {
            Some(ProjectTags::Addon)
        } else if name == "LIBRARY"@ {
            Some(ProjectTags::Library)
        } else if name == "SUPPORTS_FOLIA"@ {
            Some(ProjectTags::SupportsFolia)
        } else {
            None
        }
    }

    fn as_str(&self) -> (r: &'static str) {
        match self {
            ProjectTags::Addon => "ADDON",
            ProjectTags::Library => "LIBRARY",
            ProjectTags::SupportsFolia => "SUPPORTS_FOLIA",
        }
    }

    fn from_name(name: &str) -> (r: Option<Self>) {
        if same_text(name, "ADDON") {
            Some(ProjectTags::Addon)
        } else if same_text(name, "LIBRARY") {
            Some(ProjectTags::Library)
        } else if same_text(name, "SUPPORTS_FOLIA") {
            Some(ProjectTags::SupportsFolia)
        } else {
            None
        }
    }

    proof fn lemma_name_round_trip(self, name: Seq<char>) {
        reveal_strlit("ADDON");
        assert("ADDON"@.len() == 5 && "ADDON"@[0] == 'A');
        reveal_strlit("LIBRARY");
        assert("LIBRARY"@.len() == 7 && "LIBRARY"@[0] == 'L');
        reveal_strlit("SUPPORTS_FOLIA");
        assert("SUPPORTS_FOLIA"@.len() == 14 && "SUPPORTS_FOLIA"@[0] == 'S');
    }
}

impl DeepView for ProjectTags {
    type V = ProjectTags;

    open spec fn deep_view(&self) -> ProjectTags {
        *self
    }
}

impl Decode for ProjectTags {
    open spec fn decoded(j: JsonView) -> Result<ProjectTags, DecodeError> {
        named::<ProjectTags>(j)
    }

    fn decode(j: &Json) -> (r: Result<Self, DecodeError>) {
        decode_named::<ProjectTags>(j)
    }
}

/// How far the review of a version has come.
#[derive(Debug, Clone, Copy, PartialEq, Eq)]
pub enum ReviewState {
    Unreviewed,
    Reviewed,
    UnderReview,
    PartiallyReviewed,
}

impl WireName for ReviewState {
    open spec fn wire_name(self) -> Seq<char> {
        match self {
            ReviewState::Unreviewed => "unreviewed"@,
            ReviewState::Reviewed => "reviewed"@,
            ReviewState::UnderReview => "underReview"@,
            ReviewState::PartiallyReviewed => "partiallyReviewed"@,
        }
    }

    open spec fn from_wire(name: Seq<char>) -> Option<Self> {
        if name == "unreviewed"@ {
            Some(ReviewState::Unreviewed)
        } else if name == "reviewed"@ {
            Some(ReviewState::Reviewed)
        } else if name == "underReview"@ {
            Some(ReviewState::UnderReview)
        } else if name == "partiallyReviewed"@ {
            Some(ReviewState::PartiallyReviewed)
        } else {
            None
        }
    }

    fn as_str(&self) -> (r: &'static str) {
        match self {
            ReviewState::Unreviewed => "unreviewed",
            ReviewState::Reviewed => "reviewed",
            ReviewState::UnderReview => "underReview",
            ReviewState::PartiallyReviewed => "partiallyReviewed",
        }
    }

    fn from_name(name: &str) -> (r: Option<Self>) {
        if same_text(name, "unreviewed") {
            Some(ReviewState::Unreviewed)
        } else if same_text(name, "reviewed") {
            Some(ReviewState::Reviewed)
        } else if same_text(name, "underReview") {
            Some(ReviewState::UnderReview)
        } else if same_text(name, "partiallyReviewed") {
            Some(ReviewState::PartiallyReviewed)
        } else {
            None
        }
    }

    proof fn lemma_name_round_trip(self, name: Seq<char>) {
        reveal_strlit("unreviewed");
        assert("unreviewed"@.len() == 10 && "unreviewed"@[0] == 'u');
        reveal_strlit("reviewed");
        assert("reviewed"@.len() == 8 && "reviewed"@[0] == 'r');
        reveal_strlit("underReview");
        assert("underReview"@.len() == 11 && "underReview"@[0] == 'u');
        reveal_strlit("partiallyReviewed");
        assert("partiallyReviewed"@.len() == 17 && "partiallyReviewed"@[0] == 'p');
    }
}

impl DeepView for ReviewState {
    type V = ReviewState;

    open spec fn deep_view(&self) -> ReviewState {
        *self
    }
}

impl Decode for ReviewState {
    open spec fn decoded(j: JsonView) -> Result<ReviewState, DecodeError> {
        named::<ReviewState>(j)
    }

    fn decode(j: &Json) -> (r: Result<Self, DecodeError>) {
        decode_named::<ReviewState>(j)
    }
}

/// A flag of a release channel.
#[derive(Debug, Clone, Copy, PartialEq, Eq)]
pub enum ChannelFlags {
    Frozen,
    Unstable,
    Pinned,
    SendsNotifications,
    HideByDefault,
}

impl WireName for ChannelFlags {
    open spec fn wire_name(self) -> Seq<char> {
        match self {
            ChannelFlags::Frozen => "FROZEN"@,
            ChannelFlags::Unstable => "UNSTABLE"@,
            ChannelFlags::Pinned => "PINNED"@,
            ChannelFlags::SendsNotifications => "SENDS_NOTIFICATIONS"@,
            ChannelFlags::HideByDefault => "HIDE_BY_DEFAULT"@,
        }
    }

    open spec fn from_wire(name: Seq<char>) -> Option<Self> {
        if name == "FROZEN"@ {
            Some(ChannelFlags::Frozen)
        } else if name == "UNSTABLE"@ {
            Some(ChannelFlags::Unstable)
        } else if name == "PINNED"@ {
            Some(ChannelFlags::Pinned)
        } else if name == "SENDS_NOTIFICATIONS"@ {
            Some(ChannelFlags::SendsNotifications)
        } else if name == "HIDE_BY_DEFAULT"@ {
            Some(ChannelFlags::HideByDefault)
        } else {
            None
        }
    }

    fn as_str(&self) -> (r: &'static str) {
        match self {
            ChannelFlags::Frozen => "FROZEN",
            ChannelFlags::Unstable => "UNSTABLE",
            ChannelFlags::Pinned => "PINNED",
            ChannelFlags::SendsNotifications => "SENDS_NOTIFICATIONS",
            ChannelFlags::HideByDefault => "HIDE_BY_DEFAULT",
        }
    }

    fn from_name(name: &str) -> (r: Option<Self>) {
        if same_text(name, "FROZEN") {
            Some(ChannelFlags::Frozen)
        } else if same_text(name, "UNSTABLE") {
            Some(ChannelFlags::Unstable)
        } else if same_text(name, "PINNED") {
            Some(ChannelFlags::Pinned)
        } else if same_text(name, "SENDS_NOTIFICATIONS") {
            Some(ChannelFlags::SendsNotifications)
        } else if same_text(name, "HIDE_BY_DEFAULT") {
            Some(ChannelFlags::HideByDefault)
        } else {
            None
        }
    }

    proof fn lemma_name_round_trip(self, name: Seq<char>) {
        reveal_strlit("FROZEN");
        assert("FROZEN"@.len() == 6 && "FROZEN"@[0] == 'F');
        reveal_strlit("UNSTABLE");
        assert("UNSTABLE"@.len() == 8 && "UNSTABLE"@[0] == 'U');
        reveal_strlit("PINNED");
        assert("PINNED"@.len() == 6 && "PINNED"@[0] == 'P');
        reveal_strlit("SENDS_NOTIFICATIONS");
        assert("SENDS_NOTIFICATIONS"@.len() == 19 && "SENDS_NOTIFICATIONS"@[0] == 'S');
        reveal_strlit("HIDE_BY_DEFAULT");
        assert("HIDE_BY_DEFAULT"@.len() == 15 && "HIDE_BY_DEFAULT"@[0] == 'H');
    }
}

impl DeepView for ChannelFlags {
    type V = ChannelFlags;

    open spec fn deep_view(&self) -> ChannelFlags {
        *self
    }
}

impl Decode for ChannelFlags {
    open spec fn decoded(j: JsonView) -> Result<ChannelFlags, DecodeError> {
        named::<ChannelFlags>(j)
    }

    fn decode(j: &Json) -> (r: Result<Self, DecodeError>) {
        decode_named::<ChannelFlags>(j)
    }
}

/// Whether and why a version is pinned.
#[derive(Debug, Clone, Copy, PartialEq, Eq)]
pub enum PinnedStatus {
    /// Written `NONE` on the wire.
    NotPinned,
    Version,
    Channel,
}

impl WireName for PinnedStatus {
    open spec fn wire_name(self) -> Seq<char> {
        match self {
            PinnedStatus::NotPinned => "NONE"@,
            PinnedStatus::Version => "VERSION"@,
            PinnedStatus::Channel => "CHANNEL"@,
        }
    }

    open spec fn from_wire(name: Seq<char>) -> Option<Self> {
        if name == "NONE"@ {
            Some(PinnedStatus::NotPinned)
        } else if name == "VERSION"@ {
            Some(PinnedStatus::Version)
        } else if name == "CHANNEL"@ {
            Some(PinnedStatus::Channel)
        } else {
            None
        }
    }

    fn as_str(&self) -> (r: &'static str) {
        match self {
            PinnedStatus::NotPinned => "NONE",
            PinnedStatus::Version => "VERSION",
            PinnedStatus::Channel => "CHANNEL",
        }
    }

    fn from_name(name: &str) -> (r: Option<Self>) {
        if same_text(name, "NONE") {
            Some(PinnedStatus::NotPinned)
        } else if same_text(name, "VERSION") {
            Some(PinnedStatus::Version)
        } else if same_text(name, "CHANNEL") {
            Some(PinnedStatus::Channel)
        } else {
            None
        }
    }

    proof fn lemma_name_round_trip(self, name: Seq<char>) {
        reveal_strlit("NONE");
        assert("NONE"@.len() == 4 && "NONE"@[0] == 'N');
        reveal_strlit("VERSION");
        assert("VERSION"@.len() == 7 && "VERSION"@[0] == 'V');
        reveal_strlit("CHANNEL");
        assert("CHANNEL"@.len() == 7 && "CHANNEL"@[0] == 'C');
    }
}

impl DeepView for PinnedStatus {
    type V = PinnedStatus;

    open spec fn deep_view(&self) -> PinnedStatus {
        *self
    }
}

impl Decode for PinnedStatus {
    open spec fn decoded(j: JsonView) -> Result<PinnedStatus, DecodeError> {
        named::<PinnedStatus>(j)
    }

    fn decode(j: &Json) -> (r: Result<Self, DecodeError>) {
        decode_named::<PinnedStatus>(j)
    }
}

/// The owner and slug that together identify a project.
#[derive(Debug, Clone, PartialEq)]
pub struct Namespace {
    pub owner: String,
    pub slug: String,
}

/// The mathematical value of a [`Namespace`].
pub struct NamespaceView {
    pub owner: Seq<char>,
    pub slug: Seq<char>,
}

impl Namespace {
    /// The address of the project's page on the service's site.
    pub open spec fn page(&self) -> Seq<char> {
        "https://hangar.papermc.io/"@ + self.owner@ + "/"@ + self.slug@
    }

    /// The address of the project's page on the service's site.
    pub fn url(&self) -> (r: String)
        ensures
            r@ == self.page(),
    {
        let mut out = String::from_str("https://hangar.papermc.io/");
        out.append(self.owner.as_str());
        out.append("/");
        out.append(self.slug.as_str());
        out
    }
}

impl DeepView for Namespace {
    type V = NamespaceView;

    open spec fn deep_view(&self) -> NamespaceView {
        NamespaceView {
            owner: self.owner.deep_view(),
            slug: self.slug.deep_view(),
        }
    }
}

impl Decode for Namespace {
    open spec fn decoded(j: JsonView) -> Result<NamespaceView, DecodeError> {
        match members_of(j) {
            Err(e) => Err(e),
            Ok(m) => {
                let owner = required::<String>(m, "owner");
                let slug = required::<String>(m, "slug");
                if owner is Err {
                    Err(owner->Err_0)
                } else if slug is Err {
                    Err(slug->Err_0)
                } else {
                    Ok(
                        NamespaceView {
                            owner: owner->Ok_0,
                            slug: slug->Ok_0,
                        },
                    )
                }
            },
        }
    }

    fn decode(j: &Json) -> (r: Result<Self, DecodeError>) {
        let m = object(j)?;
        let owner = field::<String>(m, "owner")?;
        let slug = field::<String>(m, "slug")?;
        Ok(Namespace { owner, slug })
    }
}

/// Counters of a project.
#[derive(Debug, Clone, Copy, PartialEq, Eq)]
pub struct ProjectStats {
    pub views: i64,
    pub downloads: i64,
    pub recent_views: i64,
    pub recent_downloads: i64,
    pub stars: i64,
    pub watchers: i64,
}

impl DeepView for ProjectStats {
    type V = ProjectStats;

    open spec fn deep_view(&self) -> ProjectStats {
        *self
    }
}

impl Decode for ProjectStats {
    open spec fn decoded(j: JsonView) -> Result<ProjectStats, DecodeError> {
        match members_of(j) {
            Err(e) => Err(e),
            Ok(m) => {
                let views = required::<i64>(m, "views");
                let downloads = required::<i64>(m, "downloads");
                let recent_views = required::<i64>(m, "recentViews");
                let recent_downloads = required::<i64>(m, "recentDownloads");
                let stars = required::<i64>(m, "stars");
                let watchers = required::<i64>(m, "watchers");
                if views is Err {
                    Err(views->Err_0)
                } else if downloads is Err {
                    Err(downloads->Err_0)
                } else if recent_views is Err {
                    Err(recent_views->Err_0)
                } else if recent_downloads is Err {
                    Err(recent_downloads->Err_0)
                } else if stars is Err {
                    Err(stars->Err_0)
                } else if watchers is Err {
                    Err(watchers->Err_0)
                } else {
                    Ok(
                        ProjectStats {
                            views: views->Ok_0,
                            downloads: downloads->Ok_0,
                            recent_views: recent_views->Ok_0,
                            recent_downloads: recent_downloads->Ok_0,
                            stars: stars->Ok_0,
                            watchers: watchers->Ok_0,
                        },
                    )
                }
            },
        }
    }

    fn decode(j: &Json) -> (r: Result<Self, DecodeError>) {
        let m = object(j)?;
        let views = field::<i64>(m, "views")?;
        let downloads = field::<i64>(m, "downloads")?;
        let recent_views = field::<i64>(m, "recentViews")?;
        let recent_downloads = field::<i64>(m, "recentDownloads")?;
        let stars = field::<i64>(m, "stars")?;
        let watchers = field::<i64>(m, "watchers")?;
        Ok(ProjectStats { views, downloads, recent_views, recent_downloads, stars, watchers })
    }
}

/// What the caller has done with a project.
#[derive(Debug, Clone, Copy, PartialEq, Eq)]
pub struct UserActions {
    pub starred: bool,
    pub watching: bool,
    pub flagged: bool,
}

impl DeepView for UserActions {
    type V = UserActions;

    open spec fn deep_view(&self) -> UserActions {
        *self
    }
}

impl Decode for UserActions {
    open spec fn decoded(j: JsonView) -> Result<UserActions, DecodeError> {
        match members_of(j) {
            Err(e) => Err(e),
            Ok(m) => {
                let starred = required::<bool>(m, "starred");
                let watching = required::<bool>(m, "watching");
                let flagged = required::<bool>(m, "flagged");
                if starred is Err {
                    Err(starred->Err_0)
                } else if watching is Err {
                    Err(watching->Err_0)
                } else if flagged is Err {
                    Err(flagged->Err_0)
                } else {
                    Ok(
                        UserActions {
                            starred: starred->Ok_0,
                            watching: watching->Ok_0,
                            flagged: flagged->Ok_0,
                        },
                    )
                }
            },
        }
    }

    fn decode(j: &Json) -> (r: Result<Self, DecodeError>) {
        let m = object(j)?;
        let starred = field::<bool>(m, "starred")?;
        let watching = field::<bool>(m, "watching")?;
        let flagged = field::<bool>(m, "flagged")?;
        Ok(UserActions { starred, watching, flagged })
    }
}

/// One named link.
#[derive(Debug, Clone, PartialEq)]
pub struct ActualLink {
    pub id: i64,
    pub name: String,
    /// The target. The service leaves it out at times, so it may be absent.
    pub url: Option<String>,
}

/// The mathematical value of a [`ActualLink`].
pub struct ActualLinkView {
    pub id: i64,
    pub name: Seq<char>,
    pub url: Option<Seq<char>>,
}

impl DeepView for ActualLink {
    type V = ActualLinkView;

    open spec fn deep_view(&self) -> ActualLinkView {
        ActualLinkView {
            id: self.id.deep_view(),
            name: self.name.deep_view(),
            url: self.url.deep_view(),
        }
    }
}

impl Decode for ActualLink {
    open spec fn decoded(j: JsonView) -> Result<ActualLinkView, DecodeError> {
        match members_of(j) {
            Err(e) => Err(e),
            Ok(m) => {
                let id = required::<i64>(m, "id");
                let name = required::<String>(m, "name");
                let url = optional::<String>(m, "url");
                if id is Err {
                    Err(id->Err_0)
                } else if name is Err {
                    Err(name->Err_0)
                } else if url is Err {
                    Err(url->Err_0)
                } else {
                    Ok(
                        ActualLinkView {
                            id: id->Ok_0,
                            name: name->Ok_0,
                            url: url->Ok_0,
                        },
                    )
                }
            },
        }
    }

    fn decode(j: &Json) -> (r: Result<Self, DecodeError>) {
        let m = object(j)?;
        let id = field::<i64>(m, "id")?;
        let name = field::<String>(m, "name")?;
        let url = optional_field::<String>(m, "url")?;
        Ok(ActualLink { id, name, url })
    }
}

/// A group of links, shown in the sidebar or at the top.
#[derive(Debug, Clone, PartialEq)]
pub struct Link {
    pub id: i64,
    /// Where the group is shown: `SIDEBAR` or `TOP`.
    pub link_type: String,
    pub title: Option<String>,
    pub links: Vec<ActualLink>,
}

/// The mathematical value of a [`Link`].
pub struct LinkView {
    pub id: i64,
    pub link_type: Seq<char>,
    pub title: Option<Seq<char>>,
    pub links: Seq<ActualLinkView>,
}

impl DeepView for Link {
    type V = LinkView;

    open spec fn deep_view(&self) -> LinkView {
        LinkView {
            id: self.id.deep_view(),
            link_type: self.link_type.deep_view(),
            title: self.title.deep_view(),
            links: self.links.deep_view(),
        }
    }
}

impl Decode for Link {
    open spec fn decoded(j: JsonView) -> Result<LinkView, DecodeError> {
        match members_of(j) {
            Err(e) => Err(e),
            Ok(m) => {
                let id = required::<i64>(m, "id");
                let link_type = required::<String>(m, "type");
                let title = optional::<String>(m, "title");
                let links = required::<Vec<ActualLink>>(m, "links");
                if id is Err {
                    Err(id->Err_0)
                } else if link_type is Err {
                    Err(link_type->Err_0)
                } else if title is Err {
                    Err(title->Err_0)
                } else if links is Err {
                    Err(links->Err_0)
                } else {
                    Ok(
                        LinkView {
                            id: id->Ok_0,
                            link_type: link_type->Ok_0,
                            title: title->Ok_0,
                            links: links->Ok_0,
                        },
                    )
                }
            },
        }
    }

    fn decode(j: &Json) -> (r: Result<Self, DecodeError>) {
        let m = object(j)?;
        let id = field::<i64>(m, "id")?;
        let link_type = field::<String>(m, "type")?;
        let title = optional_field::<String>(m, "title")?;
        let links = field::<Vec<ActualLink>>(m, "links")?;
        Ok(Link { id, link_type, title, links })
    }
}

/// The license of a project.
#[derive(Debug, Clone, PartialEq)]
pub struct License {
    pub name: Option<String>,
    pub url: Option<String>,
    pub license_type: String,
}

/// The mathematical value of a [`License`].
pub struct LicenseView {
    pub name: Option<Seq<char>>,
    pub url: Option<Seq<char>>,
    pub license_type: Seq<char>,
}

impl DeepView for License {
    type V = LicenseView;

    open spec fn deep_view(&self) -> LicenseView {
        LicenseView {
            name: self.name.deep_view(),
            url: self.url.deep_view(),
            license_type: self.license_type.deep_view(),
        }
    }
}

impl Decode for License {
    open spec fn decoded(j: JsonView) -> Result<LicenseView, DecodeError> {
        match members_of(j) {
            Err(e) => Err(e),
            Ok(m) => {
                let name = optional::<String>(m, "name");
                let url = optional::<String>(m, "url");
                let license_type = required::<String>(m, "type");
                if name is Err {
                    Err(name->Err_0)
                } else if url is Err {
                    Err(url->Err_0)
                } else if license_type is Err {
                    Err(license_type->Err_0)
                } else {
                    Ok(
                        LicenseView {
                            name: name->Ok_0,
                            url: url->Ok_0,
                            license_type: license_type->Ok_0,
                        },
                    )
                }
            },
        }
    }

    fn decode(j: &Json) -> (r: Result<Self, DecodeError>) {
        let m = object(j)?;
        let name = optional_field::<String>(m, "name")?;
        let url = optional_field::<String>(m, "url")?;
        let license_type = field::<String>(m, "type")?;
        Ok(License { name, url, license_type })
    }
}

/// How a project takes donations.
#[derive(Debug, Clone, PartialEq)]
pub struct Donation {
    pub enable: bool,
    pub subject: String,
}

/// The mathematical value of a [`Donation`].
pub struct DonationView {
    pub enable: bool,
    pub subject: Seq<char>,
}

impl DeepView for Donation {
    type V = DonationView;

    open spec fn deep_view(&self) -> DonationView {
        DonationView {
            enable: self.enable.deep_view(),
            subject: self.subject.deep_view(),
        }
    }
}

impl Decode for Donation {
    open spec fn decoded(j: JsonView) -> Result<DonationView, DecodeError> {
        match members_of(j) {
            Err(e) => Err(e),
            Ok(m) => {
                let enable = required::<bool>(m, "enable");
                let subject = required::<String>(m, "subject");
                if enable is Err {
                    Err(enable->Err_0)
                } else if subject is Err {
                    Err(subject->Err_0)
                } else {
                    Ok(
                        DonationView {
                            enable: enable->Ok_0,
                            subject: subject->Ok_0,
                        },
                    )
                }
            },
        }
    }

    fn decode(j: &Json) -> (r: Result<Self, DecodeError>) {
        let m = object(j)?;
        let enable = field::<bool>(m, "enable")?;
        let subject = field::<String>(m, "subject")?;
        Ok(Donation { enable, subject })
    }
}

/// The settings of a project.
#[derive(Debug, Clone, PartialEq)]
pub struct ProjectSettings {
    pub links: Vec<Link>,
    pub tags: Vec<ProjectTags>,
    pub license: License,
    pub keywords: Vec<String>,
    pub sponsors: String,
    pub donation: Donation,
}

/// The mathematical value of a [`ProjectSettings`].
pub struct ProjectSettingsView {
    pub links: Seq<LinkView>,
    pub tags: Seq<ProjectTags>,
    pub license: LicenseView,
    pub keywords: Seq<Seq<char>>,
    pub sponsors: Seq<char>,
    pub donation: DonationView,
}

impl DeepView for ProjectSettings {
    type V = ProjectSettingsView;

    open spec fn deep_view(&self) -> ProjectSettingsView {
        ProjectSettingsView {
            links: self.links.deep_view(),
            tags: self.tags.deep_view(),
            license: self.license.deep_view(),
            keywords: self.keywords.deep_view(),
            sponsors: self.sponsors.deep_view(),
            donation: self.donation.deep_view(),
        }
    }
}

impl Decode for ProjectSettings {
    open spec fn decoded(j: JsonView) -> Result<ProjectSettingsView, DecodeError> {
        match members_of(j) {
            Err(e) => Err(e),
            Ok(m) => {
                let links = required::<Vec<Link>>(m, "links");
                let tags = required::<Vec<ProjectTags>>(m, "tags");
                let license = required::<License>(m, "license");
                let keywords = required::<Vec<String>>(m, "keywords");
                let sponsors = required::<String>(m, "sponsors");
                let donation = required::<Donation>(m, "donation");
                if links is Err {
                    Err(links->Err_0)
                } else if tags is Err {
                    Err(tags->Err_0)
                } else if license is Err {
                    Err(license->Err_0)
                } else if keywords is Err {
                    Err(keywords->Err_0)
                } else if sponsors is Err {
                    Err(sponsors->Err_0)
                } else if donation is Err {
                    Err(donation->Err_0)
                } else {
                    Ok(
                        ProjectSettingsView {
                            links: links->Ok_0,
                            tags: tags->Ok_0,
                            license: license->Ok_0,
                            keywords: keywords->Ok_0,
                            sponsors: sponsors->Ok_0,
                            donation: donation->Ok_0,
                        },
                    )
                }
            },
        }
    }

    fn decode(j: &Json) -> (r: Result<Self, DecodeError>) {
        let m = object(j)?;
        let links = field::<Vec<Link>>(m, "links")?;
        let tags = field::<Vec<ProjectTags>>(m, "tags")?;
        let license = field::<License>(m, "license")?;
        let keywords = field::<Vec<String>>(m, "keywords")?;
        let sponsors = field::<String>(m, "sponsors")?;
        let donation = field::<Donation>(m, "donation")?;
        Ok(ProjectSettings { links, tags, license, keywords, sponsors, donation })
    }
}

/// A project, as the service describes it.
#[derive(Debug, Clone, PartialEq)]
pub struct Project {
    pub created_at: Timestamp,
    /// The unique name of the project.
    pub name: String,
    pub namespace: Namespace,
    pub stats: ProjectStats,
    pub category: Category,
    pub last_updated: Timestamp,
    pub visibility: Visibility,
    /// Where the project's icon is.
    pub avatar_url: String,
    /// The short description.
    pub description: String,
    pub user_actions: UserActions,
    pub settings: ProjectSettings,
}

/// The mathematical value of a [`Project`].
pub struct ProjectView {
    pub created_at: Timestamp,
    pub name: Seq<char>,
    pub namespace: NamespaceView,
    pub stats: ProjectStats,
    pub category: Category,
    pub last_updated: Timestamp,
    pub visibility: Visibility,
    pub avatar_url: Seq<char>,
    pub description: Seq<char>,
    pub user_actions: UserActions,
    pub settings: ProjectSettingsView,
}

impl DeepView for Project {
    type V = ProjectView;

    open spec fn deep_view(&self) -> ProjectView {
        ProjectView {
            created_at: self.created_at.deep_view(),
            name: self.name.deep_view(),
            namespace: self.namespace.deep_view(),
            stats: self.stats.deep_view(),
            category: self.category.deep_view(),
            last_updated: self.last_updated.deep_view(),
            visibility: self.visibility.deep_view(),
            avatar_url: self.avatar_url.deep_view(),
            description: self.description.deep_view(),
            user_actions: self.user_actions.deep_view(),
            settings: self.settings.deep_view(),
        }
    }
}

impl Decode for Project {
    open spec fn decoded(j: JsonView) -> Result<ProjectView, DecodeError> {
        match members_of(j) {
            Err(e) => Err(e),
            Ok(m) => {
                let created_at = required::<Timestamp>(m, "createdAt");
                let name = required::<String>(m, "name");
                let namespace = required::<Namespace>(m, "namespace");
                let stats = required::<ProjectStats>(m, "stats");
                let category = required::<Category>(m, "category");
                let last_updated = required::<Timestamp>(m, "lastUpdated");
                let visibility = required::<Visibility>(m, "visibility");
                let avatar_url = required::<String>(m, "avatarUrl");
                let description = required::<String>(m, "description");
                let user_actions = required::<UserActions>(m, "userActions");
                let settings = required::<ProjectSettings>(m, "settings");
                if created_at is Err {
                    Err(created_at->Err_0)
                } else if name is Err {
                    Err(name->Err_0)
                } else if namespace is Err {
                    Err(namespace->Err_0)
                } else if stats is Err {
                    Err(stats->Err_0)
                } else if category is Err {
                    Err(category->Err_0)
                } else if last_updated is Err {
                    Err(last_updated->Err_0)
                } else if visibility is Err {
                    Err(visibility->Err_0)
                } else if avatar_url is Err {
                    Err(avatar_url->Err_0)
                } else if description is Err {
                    Err(description->Err_0)
                } else if user_actions is Err {
                    Err(user_actions->Err_0)
                } else if settings is Err {
                    Err(settings->Err_0)
                } else {
                    Ok(
                        ProjectView {
                            created_at: created_at->Ok_0,
                            name: name->Ok_0,
                            namespace: namespace->Ok_0,
                            stats: stats->Ok_0,
                            category: category->Ok_0,
                            last_updated: last_updated->Ok_0,
                            visibility: visibility->Ok_0,
                            avatar_url: avatar_url->Ok_0,
                            description: description->Ok_0,
                            user_actions: user_actions->Ok_0,
                            settings: settings->Ok_0,
                        },
                    )
                }
            },
        }
    }

    fn decode(j: &Json) -> (r: Result<Self, DecodeError>) {
        let m = object(j)?;
        let created_at = field::<Timestamp>(m, "createdAt")?;
        let name = field::<String>(m, "name")?;
        let namespace = field::<Namespace>(m, "namespace")?;
        let stats = field::<ProjectStats>(m, "stats")?;
        let category = field::<Category>(m, "category")?;
        let last_updated = field::<Timestamp>(m, "lastUpdated")?;
        let visibility = field::<Visibility>(m, "visibility")?;
        let avatar_url = field::<String>(m, "avatarUrl")?;
        let description = field::<String>(m, "description")?;
        let user_actions = field::<UserActions>(m, "userActions")?;
        let settings = field::<ProjectSettings>(m, "settings")?;
        Ok(
            Project {
                created_at,
                name,
                namespace,
                stats,
                category,
                last_updated,
                visibility,
                avatar_url,
                description,
                user_actions,
                settings,
            },
        )
    }
}


impl Platform {
    /// The place of the platform in the fixed order Paper, Waterfall, Velocity.
    pub open spec fn rank(self) -> int {
        match self {
            Platform::Paper => 0,
            Platform::Waterfall => 1,
            Platform::Velocity => 2,
        }
    }
}

/// At most one value for each platform. A platform without a value is one
/// that the value does not apply to; nothing is made up for it.
#[derive(Debug, Clone, PartialEq)]
pub struct ByPlatform<T> {
    pub paper: Option<T>,
    pub waterfall: Option<T>,
    pub velocity: Option<T>,
}

/// The mathematical value of a [`ByPlatform`].
pub struct ByPlatformView<V> {
    pub paper: Option<V>,
    pub waterfall: Option<V>,
    pub velocity: Option<V>,
}

impl<T: DeepView> DeepView for ByPlatform<T> {
    type V = ByPlatformView<T::V>;

    open spec fn deep_view(&self) -> ByPlatformView<T::V> {
        ByPlatformView {
            paper: self.paper.deep_view(),
            waterfall: self.waterfall.deep_view(),
            velocity: self.velocity.deep_view(),
        }
    }
}

/// The pair of a platform and its value, if there is a value.
pub open spec fn entry<'a, T>(platform: Platform, value: &'a Option<T>) -> Seq<(Platform, &'a T)> {
    match value {
        Some(v) => seq![(platform, v)],
        None => Seq::empty(),
    }
}

impl<T> ByPlatform<T> {
    /// The value for `platform`, if there is one.
    pub open spec fn value(&self, platform: Platform) -> Option<T> {
        match platform {
            Platform::Paper => self.paper,
            Platform::Waterfall => self.waterfall,
            Platform::Velocity => self.velocity,
        }
    }

    /// The platforms that have a value, each with its value, in the order
    /// Paper, Waterfall, Velocity.
    pub open spec fn entries(&self) -> Seq<(Platform, &T)> {
        entry(Platform::Paper, &self.paper)
            + entry(Platform::Waterfall, &self.waterfall)
            + entry(Platform::Velocity, &self.velocity)
    }

    /// The value for `platform`, or `None` where the platform has none.
    pub fn get(&self, platform: Platform) -> (r: Option<&T>)
        ensures
            r is Some <==> self.value(platform) is Some,
            r is Some ==> *r->Some_0 == self.value(platform)->Some_0,
    {
        match platform {
            Platform::Paper => self.paper.as_ref(),
            Platform::Waterfall => self.waterfall.as_ref(),
            Platform::Velocity => self.velocity.as_ref(),
        }
    }

    /// The platforms that have a value, each with its value, in the order
    /// Paper, Waterfall, Velocity. Every call starts afresh.
    pub fn iter(&self) -> (r: Vec<(Platform, &T)>)
        ensures
            r@ == self.entries(),
    {
        let mut out: Vec<(Platform, &T)> = Vec::new();
        if let Some(v) = &self.paper {
            out.push((Platform::Paper, v));
        }
        assert(out@ =~= entry(Platform::Paper, &self.paper));
        if let Some(v) = &self.waterfall {
            out.push((Platform::Waterfall, v));
        }
        assert(out@ =~= entry(Platform::Paper, &self.paper) + entry(Platform::Waterfall, &self.waterfall));
        if let Some(v) = &self.velocity {
            out.push((Platform::Velocity, v));
        }
        assert(out@ =~= self.entries());
        out
    }

    /// A pair is among the entries exactly when it is the platform's value:
    /// iteration shows what `get` finds, and nothing else.
    pub proof fn lemma_entries_are_values(&self, platform: Platform, value: T)
        ensures
            self.entries().contains((platform, &value)) <==> self.value(platform) == Some(value),
    {
        let a = entry(Platform::Paper, &self.paper);
        let b = entry(Platform::Waterfall, &self.waterfall);
        let c = entry(Platform::Velocity, &self.velocity);
        let all = self.entries();
        let pair = (platform, &value);
        if self.value(platform) == Some(value) {
            match platform {
                Platform::Paper => {
                    assert(all[0] == pair);
                },
                Platform::Waterfall => {
                    assert(all[a.len() as int] == pair);
                },
                Platform::Velocity => {
                    assert(all[(a.len() + b.len()) as int] == pair);
                },
            }
        }
        if all.contains(pair) {
            let i = choose|i: int| 0 <= i < all.len() && all[i] == pair;
            if i < a.len() {
                assert(all[i] == a[i]);
            } else if i < a.len() + b.len() {
                assert(all[i] == b[i - a.len()]);
            } else {
                assert(all[i] == c[i - a.len() - b.len()]);
            }
        }
    }

    /// The entries go up in the fixed order of the platforms, so no platform
    /// comes twice.
    pub proof fn lemma_entries_in_order(&self, i: int, j: int)
        requires
            0 <= i < j < self.entries().len(),
        ensures
            self.entries()[i].0.rank() < self.entries()[j].0.rank(),
    {
        let a = entry(Platform::Paper, &self.paper);
        let b = entry(Platform::Waterfall, &self.waterfall);
        let c = entry(Platform::Velocity, &self.velocity);
        let all = self.entries();
        assert(forall|k: int| 0 <= k < a.len() ==> all[k] == a[k]);
        assert(forall|k: int| a.len() <= k < a.len() + b.len() ==> all[k] == b[k - a.len()]);
        assert(forall|k: int| a.len() + b.len() <= k < all.len() ==> all[k] == c[k - a.len() - b.len()]);
    }
}

/// An object with at most the members `PAPER`, `WATERFALL` and `VELOCITY`,
/// each of which may be missing or `null`.
impl<T: Decode> Decode for ByPlatform<T> {
    open spec fn decoded(j: JsonView) -> Result<ByPlatformView<T::V>, DecodeError> {
        match members_of(j) {
            Err(e) => Err(e),
            Ok(m) => {
                let paper = optional::<T>(m, "PAPER");
                let waterfall = optional::<T>(m, "WATERFALL");
                let velocity = optional::<T>(m, "VELOCITY");
                if paper is Err {
                    Err(paper->Err_0)
                } else if waterfall is Err {
                    Err(waterfall->Err_0)
                } else if velocity is Err {
                    Err(velocity->Err_0)
                } else {
                    Ok(
                        ByPlatformView {
                            paper: paper->Ok_0,
                            waterfall: waterfall->Ok_0,
                            velocity: velocity->Ok_0,
                        },
                    )
                }
            },
        }
    }

    fn decode(j: &Json) -> (r: Result<Self, DecodeError>) {
        let m = object(j)?;
        let paper = optional_field::<T>(m, "PAPER")?;
        let waterfall = optional_field::<T>(m, "WATERFALL")?;
        let velocity = optional_field::<T>(m, "VELOCITY")?;
        Ok(ByPlatform { paper, waterfall, velocity })
    }
}

/// Where a version is downloaded from. The payload carries no tag: the
/// members that are there tell the two shapes apart.
#[derive(Debug, Clone, PartialEq)]
pub enum VersionDownloads {
    /// A file that the service hosts.
    Internal {
        file_info: VersionDownloadsFileInfo,
        /// Where the service hands the file out.
        download_url: String,
    },
    /// A file that is kept elsewhere.
    External {
        /// Where the file is kept.
        external_url: String,
    },
}

/// The mathematical value of a [`VersionDownloads`].
pub enum VersionDownloadsView {
    Internal { file_info: VersionDownloadsFileInfoView, download_url: Seq<char> },
    External { external_url: Seq<char> },
}

impl DeepView for VersionDownloads {
    type V = VersionDownloadsView;

    open spec fn deep_view(&self) -> VersionDownloadsView {
        match self {
            VersionDownloads::Internal { file_info, download_url } => VersionDownloadsView::Internal {
                file_info: file_info.deep_view(),
                download_url: download_url@,
            },
            VersionDownloads::External { external_url } => VersionDownloadsView::External {
                external_url: external_url@,
            },
        }
    }
}

impl VersionDownloads {
    /// What `j` decodes to as a hosted file: an object with a `fileInfo`
    /// and a `downloadUrl`.
    pub open spec fn decoded_internal(j: JsonView) -> Result<VersionDownloadsView, DecodeError> {
        match members_of(j) {
            Err(e) => Err(e),
            Ok(m) => {
                let file_info = required::<VersionDownloadsFileInfo>(m, "fileInfo");
                let download_url = required::<String>(m, "downloadUrl");
                if file_info is Err {
                    Err(file_info->Err_0)
                } else if download_url is Err {
                    Err(download_url->Err_0)
                } else {
                    Ok(
                        VersionDownloadsView::Internal {
                            file_info: file_info->Ok_0,
                            download_url: download_url->Ok_0,
                        },
                    )
                }
            },
        }
    }

    /// What `j` decodes to as a file kept elsewhere: an object with an
    /// `externalUrl`.
    pub open spec fn decoded_external(j: JsonView) -> Result<VersionDownloadsView, DecodeError> {
        match members_of(j) {
            Err(e) => Err(e),
            Ok(m) => {
                let external_url = required::<String>(m, "externalUrl");
                if external_url is Err {
                    Err(external_url->Err_0)
                } else {
                    Ok(VersionDownloadsView::External { external_url: external_url->Ok_0 })
                }
            },
        }
    }

    /// Decodes a hosted file.
    pub fn decode_internal(j: &Json) -> (r: Result<VersionDownloads, DecodeError>)
        ensures
            outcome(r) == VersionDownloads::decoded_internal(j.deep_view()),
    {
        let m = object(j)?;
        let file_info = field::<VersionDownloadsFileInfo>(m, "fileInfo")?;
        let download_url = field::<String>(m, "downloadUrl")?;
        Ok(VersionDownloads::Internal { file_info, download_url })
    }

    /// Decodes a file kept elsewhere.
    pub fn decode_external(j: &Json) -> (r: Result<VersionDownloads, DecodeError>)
        ensures
            outcome(r) == VersionDownloads::decoded_external(j.deep_view()),
    {
        let m = object(j)?;
        let external_url = field::<String>(m, "externalUrl")?;
        Ok(VersionDownloads::External { external_url })
    }
}

/// The shapes are tried in turn, the hosted one first, and the first that
/// the payload satisfies in full is taken. A payload that satisfies neither
/// is refused as a whole; why each shape failed is not reported.
impl Decode for VersionDownloads {
    open spec fn decoded(j: JsonView) -> Result<VersionDownloadsView, DecodeError> {
        if VersionDownloads::decoded_internal(j) is Ok {
            VersionDownloads::decoded_internal(j)
        } else if VersionDownloads::decoded_external(j) is Ok {
            VersionDownloads::decoded_external(j)
        } else {
            Err(DecodeError::here(ErrorKind::NoVariantMatched))
        }
    }

    fn decode(j: &Json) -> (r: Result<Self, DecodeError>) {
        match VersionDownloads::decode_internal(j) {
            Ok(v) => Ok(v),
            Err(_) => match VersionDownloads::decode_external(j) {
                Ok(v) => Ok(v),
                Err(_) => Err(DecodeError::at_root(ErrorKind::NoVariantMatched)),
            },
        }
    }
}

/// The file of a version that the service hosts.
#[derive(Debug, Clone, PartialEq)]
pub struct VersionDownloadsFileInfo {
    pub name: String,
    pub size_bytes: i64,
    pub sha256_hash: String,
}

/// The mathematical value of a [`VersionDownloadsFileInfo`].
pub struct VersionDownloadsFileInfoView {
    pub name: Seq<char>,
    pub size_bytes: i64,
    pub sha256_hash: Seq<char>,
}

impl DeepView for VersionDownloadsFileInfo {
    type V = VersionDownloadsFileInfoView;

    open spec fn deep_view(&self) -> VersionDownloadsFileInfoView {
        VersionDownloadsFileInfoView {
            name: self.name.deep_view(),
            size_bytes: self.size_bytes.deep_view(),
            sha256_hash: self.sha256_hash.deep_view(),
        }
    }
}

impl Decode for VersionDownloadsFileInfo {
    open spec fn decoded(j: JsonView) -> Result<VersionDownloadsFileInfoView, DecodeError> {
        match members_of(j) {
            Err(e) => Err(e),
            Ok(m) => {
                let name = required::<String>(m, "name");
                let size_bytes = required::<i64>(m, "sizeBytes");
                let sha256_hash = required::<String>(m, "sha256Hash");
                if name is Err {
                    Err(name->Err_0)
                } else if size_bytes is Err {
                    Err(size_bytes->Err_0)
                } else if sha256_hash is Err {
                    Err(sha256_hash->Err_0)
                } else {
                    Ok(
                        VersionDownloadsFileInfoView {
                            name: name->Ok_0,
                            size_bytes: size_bytes->Ok_0,
                            sha256_hash: sha256_hash->Ok_0,
                        },
                    )
                }
            },
        }
    }

    fn decode(j: &Json) -> (r: Result<Self, DecodeError>) {
        let m = object(j)?;
        let name = field::<String>(m, "name")?;
        let size_bytes = field::<i64>(m, "sizeBytes")?;
        let sha256_hash = field::<String>(m, "sha256Hash")?;
        Ok(VersionDownloadsFileInfo { name, size_bytes, sha256_hash })
    }
}

/// A plugin that a version depends on.
#[derive(Debug, Clone, PartialEq)]
pub struct VersionPluginDependencies {
    /// The name; for a project on the service, its name there.
    pub name: String,
    /// Whether the version cannot work without it.
    pub required: bool,
    /// Where to get it, if it is no project on the service.
    pub external_url: Option<String>,
    pub platform: Platform,
}

/// The mathematical value of a [`VersionPluginDependencies`].
pub struct VersionPluginDependenciesView {
    pub name: Seq<char>,
    pub required: bool,
    pub external_url: Option<Seq<char>>,
    pub platform: Platform,
}

impl DeepView for VersionPluginDependencies {
    type V = VersionPluginDependenciesView;

    open spec fn deep_view(&self) -> VersionPluginDependenciesView {
        VersionPluginDependenciesView {
            name: self.name.deep_view(),
            required: self.required.deep_view(),
            external_url: self.external_url.deep_view(),
            platform: self.platform.deep_view(),
        }
    }
}

impl Decode for VersionPluginDependencies {
    open spec fn decoded(j: JsonView) -> Result<VersionPluginDependenciesView, DecodeError> {
        match members_of(j) {
            Err(e) => Err(e),
            Ok(m) => {
                let name = required::<String>(m, "name");
                let needed = required::<bool>(m, "required");
                let external_url = optional::<String>(m, "externalUrl");
                let platform = required::<Platform>(m, "platform");
                if name is Err {
                    Err(name->Err_0)
                } else if needed is Err {
                    Err(needed->Err_0)
                } else if external_url is Err {
                    Err(external_url->Err_0)
                } else if platform is Err {
                    Err(platform->Err_0)
                } else {
                    Ok(
                        VersionPluginDependenciesView {
                            name: name->Ok_0,
                            required: needed->Ok_0,
                            external_url: external_url->Ok_0,
                            platform: platform->Ok_0,
                        },
                    )
                }
            },
        }
    }

    fn decode(j: &Json) -> (r: Result<Self, DecodeError>) {
        let m = object(j)?;
        let name = field::<String>(m, "name")?;
        let required = field::<bool>(m, "required")?;
        let external_url = optional_field::<String>(m, "externalUrl")?;
        let platform = field::<Platform>(m, "platform")?;
        Ok(VersionPluginDependencies { name, required, external_url, platform })
    }
}

/// A release channel.
#[derive(Debug, Clone, PartialEq)]
pub struct Channel {
    pub created_at: Timestamp,
    pub name: String,
    pub description: Option<String>,
    pub color: String,
    pub flags: Vec<ChannelFlags>,
}

/// The mathematical value of a [`Channel`].
pub struct ChannelView {
    pub created_at: Timestamp,
    pub name: Seq<char>,
    pub description: Option<Seq<char>>,
    pub color: Seq<char>,
    pub flags: Seq<ChannelFlags>,
}

impl DeepView for Channel {
    type V = ChannelView;

    open spec fn deep_view(&self) -> ChannelView {
        ChannelView {
            created_at: self.created_at.deep_view(),
            name: self.name.deep_view(),
            description: self.description.deep_view(),
            color: self.color.deep_view(),
            flags: self.flags.deep_view(),
        }
    }
}

impl Decode for Channel {
    open spec fn decoded(j: JsonView) -> Result<ChannelView, DecodeError> {
        match members_of(j) {
            Err(e) => Err(e),
            Ok(m) => {
                let created_at = required::<Timestamp>(m, "createdAt");
                let name = required::<String>(m, "name");
                let description = optional::<String>(m, "description");
                let color = required::<String>(m, "color");
                let flags = required::<Vec<ChannelFlags>>(m, "flags");
                if created_at is Err {
                    Err(created_at->Err_0)
                } else if name is Err {
                    Err(name->Err_0)
                } else if description is Err {
                    Err(description->Err_0)
                } else if color is Err {
                    Err(color->Err_0)
                } else if flags is Err {
                    Err(flags->Err_0)
                } else {
                    Ok(
                        ChannelView {
                            created_at: created_at->Ok_0,
                            name: name->Ok_0,
                            description: description->Ok_0,
                            color: color->Ok_0,
                            flags: flags->Ok_0,
                        },
                    )
                }
            },
        }
    }

    fn decode(j: &Json) -> (r: Result<Self, DecodeError>) {
        let m = object(j)?;
        let created_at = field::<Timestamp>(m, "createdAt")?;
        let name = field::<String>(m, "name")?;
        let description = optional_field::<String>(m, "description")?;
        let color = field::<String>(m, "color")?;
        let flags = field::<Vec<ChannelFlags>>(m, "flags")?;
        Ok(Channel { created_at, name, description, color, flags })
    }
}

/// Download counters of a version.
#[derive(Debug, Clone, PartialEq)]
pub struct VersionStats {
    pub total_downloads: i64,
    pub platform_downloads: ByPlatform<i64>,
}

/// The mathematical value of a [`VersionStats`].
pub struct VersionStatsView {
    pub total_downloads: i64,
    pub platform_downloads: ByPlatformView<i64>,
}

impl DeepView for VersionStats {
    type V = VersionStatsView;

    open spec fn deep_view(&self) -> VersionStatsView {
        VersionStatsView {
            total_downloads: self.total_downloads.deep_view(),
            platform_downloads: self.platform_downloads.deep_view(),
        }
    }
}

impl Decode for VersionStats {
    open spec fn decoded(j: JsonView) -> Result<VersionStatsView, DecodeError> {
        match members_of(j) {
            Err(e) => Err(e),
            Ok(m) => {
                let total_downloads = required::<i64>(m, "totalDownloads");
                let platform_downloads = required::<ByPlatform<i64>>(m, "platformDownloads");
                if total_downloads is Err {
                    Err(total_downloads->Err_0)
                } else if platform_downloads is Err {
                    Err(platform_downloads->Err_0)
                } else {
                    Ok(
                        VersionStatsView {
                            total_downloads: total_downloads->Ok_0,
                            platform_downloads: platform_downloads->Ok_0,
                        },
                    )
                }
            },
        }
    }

    fn decode(j: &Json) -> (r: Result<Self, DecodeError>) {
        let m = object(j)?;
        let total_downloads = field::<i64>(m, "totalDownloads")?;
        let platform_downloads = field::<ByPlatform<i64>>(m, "platformDownloads")?;
        Ok(VersionStats { total_downloads, platform_downloads })
    }
}

/// A version of a project. It names its project; it does not hold it.
#[derive(Debug, Clone, PartialEq)]
pub struct Version {
    pub created_at: Timestamp,
    pub name: String,
    pub visibility: Visibility,
    pub description: String,
    pub stats: VersionStats,
    pub author: String,
    pub review_state: ReviewState,
    pub channel: Channel,
    pub pinned_status: PinnedStatus,
    pub downloads: ByPlatform<VersionDownloads>,
    pub plugin_dependencies: ByPlatform<Vec<VersionPluginDependencies>>,
    pub platform_dependencies: ByPlatform<Vec<String>>,
    pub platform_dependencies_formatted: ByPlatform<Vec<String>>,
}

/// The mathematical value of a [`Version`].
pub struct VersionView {
    pub created_at: Timestamp,
    pub name: Seq<char>,
    pub visibility: Visibility,
    pub description: Seq<char>,
    pub stats: VersionStatsView,
    pub author: Seq<char>,
    pub review_state: ReviewState,
    pub channel: ChannelView,
    pub pinned_status: PinnedStatus,
    pub downloads: ByPlatformView<VersionDownloadsView>,
    pub plugin_dependencies: ByPlatformView<Seq<VersionPluginDependenciesView>>,
    pub platform_dependencies: ByPlatformView<Seq<Seq<char>>>,
    pub platform_dependencies_formatted: ByPlatformView<Seq<Seq<char>>>,
}

impl DeepView for Version {
    type V = VersionView;

    open spec fn deep_view(&self) -> VersionView {
        VersionView {
            created_at: self.created_at.deep_view(),
            name: self.name.deep_view(),
            visibility: self.visibility.deep_view(),
            description: self.description.deep_view(),
            stats: self.stats.deep_view(),
            author: self.author.deep_view(),
            review_state: self.review_state.deep_view(),
            channel: self.channel.deep_view(),
            pinned_status: self.pinned_status.deep_view(),
            downloads: self.downloads.deep_view(),
            plugin_dependencies: self.plugin_dependencies.deep_view(),
            platform_dependencies: self.platform_dependencies.deep_view(),
            platform_dependencies_formatted: self.platform_dependencies_formatted.deep_view(),
        }
    }
}

impl Decode for Version {
    open spec fn decoded(j: JsonView) -> Result<VersionView, DecodeError> {
        match members_of(j) {
            Err(e) => Err(e),
            Ok(m) => {
                let created_at = required::<Timestamp>(m, "createdAt");
                let name = required::<String>(m, "name");
                let visibility = required::<Visibility>(m, "visibility");
                let description = required::<String>(m, "description");
                let stats = required::<VersionStats>(m, "stats");
                let author = required::<String>(m, "author");
                let review_state = required::<ReviewState>(m, "reviewState");
                let channel = required::<Channel>(m, "channel");
                let pinned_status = required::<PinnedStatus>(m, "pinnedStatus");
                let downloads = required::<ByPlatform<VersionDownloads>>(m, "downloads");
                let plugin_dependencies = required::<ByPlatform<Vec<VersionPluginDependencies>>>(m, "pluginDependencies");
                let platform_dependencies = required::<ByPlatform<Vec<String>>>(m, "platformDependencies");
                let platform_dependencies_formatted = required::<ByPlatform<Vec<String>>>(m, "platformDependenciesFormatted");
                if created_at is Err {
                    Err(created_at->Err_0)
                } else if name is Err {
                    Err(name->Err_0)
                } else if visibility is Err {
                    Err(visibility->Err_0)
                } else if description is Err {
                    Err(description->Err_0)
                } else if stats is Err {
                    Err(stats->Err_0)
                } else if author is Err {
                    Err(author->Err_0)
                } else if review_state is Err {
                    Err(review_state->Err_0)
                } else if channel is Err {
                    Err(channel->Err_0)
                } else if pinned_status is Err {
                    Err(pinned_status->Err_0)
                } else if downloads is Err {
                    Err(downloads->Err_0)
                } else if plugin_dependencies is Err {
                    Err(plugin_dependencies->Err_0)
                } else if platform_dependencies is Err {
                    Err(platform_dependencies->Err_0)
                } else if platform_dependencies_formatted is Err {
                    Err(platform_dependencies_formatted->Err_0)
                } else {
                    Ok(
                        VersionView {
                            created_at: created_at->Ok_0,
                            name: name->Ok_0,
                            visibility: visibility->Ok_0,
                            description: description->Ok_0,
                            stats: stats->Ok_0,
                            author: author->Ok_0,
                            review_state: review_state->Ok_0,
                            channel: channel->Ok_0,
                            pinned_status: pinned_status->Ok_0,
                            downloads: downloads->Ok_0,
                            plugin_dependencies: plugin_dependencies->Ok_0,
                            platform_dependencies: platform_dependencies->Ok_0,
                            platform_dependencies_formatted: platform_dependencies_formatted->Ok_0,
                        },
                    )
                }
            },
        }
    }

    fn decode(j: &Json) -> (r: Result<Self, DecodeError>) {
        let m = object(j)?;
        let created_at = field::<Timestamp>(m, "createdAt")?;
        let name = field::<String>(m, "name")?;
        let visibility = field::<Visibility>(m, "visibility")?;
        let description = field::<String>(m, "description")?;
        let stats = field::<VersionStats>(m, "stats")?;
        let author = field::<String>(m, "author")?;
        let review_state = field::<ReviewState>(m, "reviewState")?;
        let channel = field::<Channel>(m, "channel")?;
        let pinned_status = field::<PinnedStatus>(m, "pinnedStatus")?;
        let downloads = field::<ByPlatform<VersionDownloads>>(m, "downloads")?;
        let plugin_dependencies = field::<ByPlatform<Vec<VersionPluginDependencies>>>(m, "pluginDependencies")?;
        let platform_dependencies = field::<ByPlatform<Vec<String>>>(m, "platformDependencies")?;
        let platform_dependencies_formatted = field::<ByPlatform<Vec<String>>>(m, "platformDependenciesFormatted")?;
        Ok(
            Version {
                created_at,
                name,
                visibility,
                description,
                stats,
                author,
                review_state,
                channel,
                pinned_status,
                downloads,
                plugin_dependencies,
                platform_dependencies,
                platform_dependencies_formatted,
            },
        )
    }
}


} // verus!
