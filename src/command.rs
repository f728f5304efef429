use vstd::prelude::*;

verus! {

/// Which table a container's command ids are read against.
#[derive(Debug, Clone, Copy, PartialEq, Eq, Structural)]
pub enum SnssFileType {
    Session,
    Tab,
}

impl SnssFileType {
    /// The file type's name, as it is printed.
    pub fn name(&self) -> (r: &'static str)
        ensures
            r@ == match *self {
                SnssFileType::Session => "Session"@,
                SnssFileType::Tab => "Tab"@,
            },
    {
        match *self {
            SnssFileType::Session => "Session",
            SnssFileType::Tab => "Tab",
        }
    }
}

/// The ids that the session table names.
pub open spec fn session_id_known(v: u8) -> bool {
    v <= 2 || (5 <= v <= 34) || v == 131 || v == 132 || v == 255
}

/// The ids that the tab table names.
pub open spec fn tab_id_known(v: u8) -> bool {
    (1 <= v <= 14) || v == 255
}

/// Command kinds of a session file.
#[derive(Debug, Clone, Copy, PartialEq, Eq, Structural)]
pub enum SessionRestoreIdType {
    CommandSetTabWindow,
    CommandSetWindowBounds,
    CommandSetTabIndexInWindow,
    CommandTabNavigationPathPrunedFromBack,
    CommandUpdateTabNavigation,
    CommandSetSelectedNavigationIndex,
    CommandSetSelectedTabInIndex,
    CommandSetWindowType,
    CommandSetWindowBounds2,
    CommandTabNavigationPathPrunedFromFront,
    CommandSetPinnedState,
    CommandSetExtensionAppID,
    CommandSetWindowBounds3,
    CommandSetWindowAppName,
    CommandTabClosed,
    CommandWindowClosed,
    CommandSetTabUserAgentOverride,
    CommandSessionStorageAssociated,
    CommandSetActiveWindow,
    CommandLastActiveTime,
    CommandSetWindowWorkspace,
    CommandSetWindowWorkspace2,
    CommandTabNavigationPathPruned,
    CommandSetTabGroup,
    CommandSetTabGroupMetadata,
    CommandSetTabGroupMetadata2,
    CommandSetTabGuid,
    CommandSetTabUserAgentOverride2,
    CommandSetTabData,
    CommandSetWindowUserTitle,
    CommandSetWindowVisibleOnAllWorkspaces,
    CommandAddTabExtraData,
    CommandAddWindowExtraData,
    EdgeCommandUnknown131,
    EdgeCommandUnknown132,
    UnusedCommand,
    /// An id that the table does not hold.
    Unknown(u8),
}

impl SessionRestoreIdType {
    /// The command id of this kind.
    pub open spec fn id(self) -> u8 {
        match self {
            SessionRestoreIdType::CommandSetTabWindow => 0,
            SessionRestoreIdType::CommandSetWindowBounds => 1,
            SessionRestoreIdType::CommandSetTabIndexInWindow => 2,
            SessionRestoreIdType::CommandTabNavigationPathPrunedFromBack => 5,
            SessionRestoreIdType::CommandUpdateTabNavigation => 6,
            SessionRestoreIdType::CommandSetSelectedNavigationIndex => 7,
            SessionRestoreIdType::CommandSetSelectedTabInIndex => 8,
            SessionRestoreIdType::CommandSetWindowType => 9,
            SessionRestoreIdType::CommandSetWindowBounds2 => 10,
            SessionRestoreIdType::CommandTabNavigationPathPrunedFromFront => 11,
            SessionRestoreIdType::CommandSetPinnedState => 12,
            SessionRestoreIdType::CommandSetExtensionAppID => 13,
            SessionRestoreIdType::CommandSetWindowBounds3 => 14,
            SessionRestoreIdType::CommandSetWindowAppName => 15,
            SessionRestoreIdType::CommandTabClosed => 16,
            SessionRestoreIdType::CommandWindowClosed => 17,
            SessionRestoreIdType::CommandSetTabUserAgentOverride => 18,
            SessionRestoreIdType::CommandSessionStorageAssociated => 19,
            SessionRestoreIdType::CommandSetActiveWindow => 20,
            SessionRestoreIdType::CommandLastActiveTime => 21,
            SessionRestoreIdType::CommandSetWindowWorkspace => 22,
            SessionRestoreIdType::CommandSetWindowWorkspace2 => 23,
            SessionRestoreIdType::CommandTabNavigationPathPruned => 24,
            SessionRestoreIdType::CommandSetTabGroup => 25,
            SessionRestoreIdType::CommandSetTabGroupMetadata => 26,
            SessionRestoreIdType::CommandSetTabGroupMetadata2 => 27,
            SessionRestoreIdType::CommandSetTabGuid => 28,
            SessionRestoreIdType::CommandSetTabUserAgentOverride2 => 29,
            SessionRestoreIdType::CommandSetTabData => 30,
            SessionRestoreIdType::CommandSetWindowUserTitle => 31,
            SessionRestoreIdType::CommandSetWindowVisibleOnAllWorkspaces => 32,
            SessionRestoreIdType::CommandAddTabExtraData => 33,
            SessionRestoreIdType::CommandAddWindowExtraData => 34,
            SessionRestoreIdType::EdgeCommandUnknown131 => 131,
            SessionRestoreIdType::EdgeCommandUnknown132 => 132,
            SessionRestoreIdType::UnusedCommand => 255,
            SessionRestoreIdType::Unknown(v) => v,
        }
    }

    /// Resolves a command id; an id outside the table is `Unknown`.
    pub fn from_u8(value: u8) -> (r: SessionRestoreIdType)
        ensures
            r.id() == value,
            r is Unknown <==> !session_id_known(value),
    {
        match value {
            0 => SessionRestoreIdType::CommandSetTabWindow,
            1 => SessionRestoreIdType::CommandSetWindowBounds,
            2 => SessionRestoreIdType::CommandSetTabIndexInWindow,
            5 => SessionRestoreIdType::CommandTabNavigationPathPrunedFromBack,
            6 => SessionRestoreIdType::CommandUpdateTabNavigation,
            7 => SessionRestoreIdType::CommandSetSelectedNavigationIndex,
            8 => SessionRestoreIdType::CommandSetSelectedTabInIndex,
            9 => SessionRestoreIdType::CommandSetWindowType,
            10 => SessionRestoreIdType::CommandSetWindowBounds2,
            11 => SessionRestoreIdType::CommandTabNavigationPathPrunedFromFront,
            12 => SessionRestoreIdType::CommandSetPinnedState,
            13 => SessionRestoreIdType::CommandSetExtensionAppID,
            14 => SessionRestoreIdType::CommandSetWindowBounds3,
            15 => SessionRestoreIdType::CommandSetWindowAppName,
            16 => SessionRestoreIdType::CommandTabClosed,
            17 => SessionRestoreIdType::CommandWindowClosed,
            18 => SessionRestoreIdType::CommandSetTabUserAgentOverride,
            19 => SessionRestoreIdType::CommandSessionStorageAssociated,
            20 => SessionRestoreIdType::CommandSetActiveWindow,
            21 => SessionRestoreIdType::CommandLastActiveTime,
            22 => SessionRestoreIdType::CommandSetWindowWorkspace,
            23 => SessionRestoreIdType::CommandSetWindowWorkspace2,
            24 => SessionRestoreIdType::CommandTabNavigationPathPruned,
            25 => SessionRestoreIdType::CommandSetTabGroup,
            26 => SessionRestoreIdType::CommandSetTabGroupMetadata,
            27 => SessionRestoreIdType::CommandSetTabGroupMetadata2,
            28 => SessionRestoreIdType::CommandSetTabGuid,
            29 => SessionRestoreIdType::CommandSetTabUserAgentOverride2,
            30 => SessionRestoreIdType::CommandSetTabData,
            31 => SessionRestoreIdType::CommandSetWindowUserTitle,
            32 => SessionRestoreIdType::CommandSetWindowVisibleOnAllWorkspaces,
            33 => SessionRestoreIdType::CommandAddTabExtraData,
            34 => SessionRestoreIdType::CommandAddWindowExtraData,
            131 => SessionRestoreIdType::EdgeCommandUnknown131,
            132 => SessionRestoreIdType::EdgeCommandUnknown132,
            255 => SessionRestoreIdType::UnusedCommand,
            unknown => SessionRestoreIdType::Unknown(unknown),
        }
    }
}

/// Command kinds of a tab file.
#[derive(Debug, Clone, Copy, PartialEq, Eq, Structural)]
pub enum TabRestoreIdType {
    CommandUpdateTabNavigation,
    CommandRestoredEntry,
    CommandWindowDeprecated,
    CommandSelectedNavigationInTab,
    CommandPinnedState,
    CommandSetExtensionAppID,
    CommandSetWindowAppName,
    CommandSetTabUserAgentOverride,
    CommandWindow,
    CommandSetTabGroupData,
    CommandSetTabUserAgentOverride2,
    CommandSetWindowUserTitle,
    CommandCreateGroup,
    CommandAddTabExtraData,
    UnusedCommand,
    /// An id that the table does not hold.
    Unknown(u8),
}

impl TabRestoreIdType {
    /// The command id of this kind.
    pub open spec fn id(self) -> u8 {
        match self {
            TabRestoreIdType::CommandUpdateTabNavigation => 1,
            TabRestoreIdType::CommandRestoredEntry => 2,
            TabRestoreIdType::CommandWindowDeprecated => 3,
            TabRestoreIdType::CommandSelectedNavigationInTab => 4,
            TabRestoreIdType::CommandPinnedState => 5,
            TabRestoreIdType::CommandSetExtensionAppID => 6,
            TabRestoreIdType::CommandSetWindowAppName => 7,
            TabRestoreIdType::CommandSetTabUserAgentOverride => 8,
            TabRestoreIdType::CommandWindow => 9,
            TabRestoreIdType::CommandSetTabGroupData => 10,
            TabRestoreIdType::CommandSetTabUserAgentOverride2 => 11,
            TabRestoreIdType::CommandSetWindowUserTitle => 12,
            TabRestoreIdType::CommandCreateGroup => 13,
            TabRestoreIdType::CommandAddTabExtraData => 14,
            TabRestoreIdType::UnusedCommand => 255,
            TabRestoreIdType::Unknown(v) => v,
        }
    }

    /// Resolves a command id; an id outside the table is `Unknown`.
    pub fn from_u8(value: u8) -> (r: TabRestoreIdType)
        ensures
            r.id() == value,
            r is Unknown <==> !tab_id_known(value),
    {
        match value {
            1 => TabRestoreIdType::CommandUpdateTabNavigation,
            2 => TabRestoreIdType::CommandRestoredEntry,
            3 => TabRestoreIdType::CommandWindowDeprecated,
            4 => TabRestoreIdType::CommandSelectedNavigationInTab,
            5 => TabRestoreIdType::CommandPinnedState,
            6 => TabRestoreIdType::CommandSetExtensionAppID,
            7 => TabRestoreIdType::CommandSetWindowAppName,
            8 => TabRestoreIdType::CommandSetTabUserAgentOverride,
            9 => TabRestoreIdType::CommandWindow,
            10 => TabRestoreIdType::CommandSetTabGroupData,
            11 => TabRestoreIdType::CommandSetTabUserAgentOverride2,
            12 => TabRestoreIdType::CommandSetWindowUserTitle,
            13 => TabRestoreIdType::CommandCreateGroup,
            14 => TabRestoreIdType::CommandAddTabExtraData,
            255 => TabRestoreIdType::UnusedCommand,
            unknown => TabRestoreIdType::Unknown(unknown),
        }
    }
}

/// The id of the one command of each table that carries a navigation entry.
pub open spec fn navigation_update_id(file_type: SnssFileType) -> u8 {
    match file_type {
        SnssFileType::Session => 6,
        SnssFileType::Tab => 1,
    }
}

/// A command id resolved against the table of its file type.
#[derive(Debug, Clone, Copy, PartialEq, Eq, Structural)]
pub enum CommandIdType {
    Session(SessionRestoreIdType),
    Tab(TabRestoreIdType),
    Invalid,
}

impl CommandIdType {
    /// `self` is what `id` resolves to in the table of `file_type`.
    pub open spec fn resolves(self, file_type: SnssFileType, id: u8) -> bool {
        match self {
            CommandIdType::Session(s) => {
                &&& file_type == SnssFileType::Session
                &&& s.id() == id
                &&& (s is Unknown <==> !session_id_known(id))
            },
            CommandIdType::Tab(t) => {
                &&& file_type == SnssFileType::Tab
                &&& t.id() == id
                &&& (t is Unknown <==> !tab_id_known(id))
            },
            CommandIdType::Invalid => false,
        }
    }

    /// Resolves `id` in the table of `file_type`; this never fails.
    pub fn resolve(file_type: SnssFileType, id: u8) -> (r: CommandIdType)
        ensures
            r.resolves(file_type, id),
    {
        match file_type {
            SnssFileType::Session => CommandIdType::Session(SessionRestoreIdType::from_u8(id)),
            SnssFileType::Tab => CommandIdType::Tab(TabRestoreIdType::from_u8(id)),
        }
    }

    /// Whether this is the command that carries a navigation entry.
    pub fn is_navigation_update(&self) -> (r: bool)
        ensures
            r == match *self {
                CommandIdType::Session(s) => s == SessionRestoreIdType::CommandUpdateTabNavigation,
                CommandIdType::Tab(t) => t == TabRestoreIdType::CommandUpdateTabNavigation,
                CommandIdType::Invalid => false,
            },
    {
        match *self {
            CommandIdType::Session(s) => s == SessionRestoreIdType::CommandUpdateTabNavigation,
            CommandIdType::Tab(t) => t == TabRestoreIdType::CommandUpdateTabNavigation,
            CommandIdType::Invalid => false,
        }
    }
}

/// A resolved id is the navigation update exactly when the id is that of its table.
pub proof fn lemma_navigation_update_by_id(c: CommandIdType, file_type: SnssFileType, id: u8)
    requires
        c.resolves(file_type, id),
    ensures
        (match c {
            CommandIdType::Session(s) => s == SessionRestoreIdType::CommandUpdateTabNavigation,
            CommandIdType::Tab(t) => t == TabRestoreIdType::CommandUpdateTabNavigation,
            CommandIdType::Invalid => false,
        }) <==> id == navigation_update_id(file_type),
{
}

} // verus!
