//! The SDK handle: the integrity switch and the entitlements of demo mode.

use vstd::prelude::*;
use vstd::string::StringExecFns;

verus! {

/// Errors of the SDK.
#[derive(Debug)]
pub enum SdkError {
    Init(String),
    Integrity(String),
    Entitlement(String),
    RuntimeNotAvailable,
}

/// The text of an [`SdkError`].
pub open spec fn error_text(error: SdkError) -> Seq<char> {
    match error {
        SdkError::Init(detail) => "init_error: "@ + detail@,
        SdkError::Integrity(detail) => "integrity_error: "@ + detail@,
        SdkError::Entitlement(detail) => "entitlement_error: "@ + detail@,
        SdkError::RuntimeNotAvailable =>
            "runtime_not_available: This SDK interface requires the Belladonna Play runtime library"@,
    }
}

impl SdkError {
    /// The error in words.
    pub fn message(&self) -> (text: String)
        ensures
            text@ == error_text(*self),
    {
        match self {
            SdkError::Init(detail) => String::from_str("init_error: ").concat(detail.as_str()),
            SdkError::Integrity(detail) => String::from_str("integrity_error: ").concat(detail.as_str()),
            SdkError::Entitlement(detail) => String::from_str("entitlement_error: ").concat(
                detail.as_str(),
            ),
            SdkError::RuntimeNotAvailable => String::from_str(
                "runtime_not_available: This SDK interface requires the Belladonna Play runtime library",
            ),
        }
    }
}

/// How the SDK is to start.
#[derive(Debug, Clone, Copy)]
pub struct InitConfig {
    /// Switch integrity monitoring on at once.
    pub auto_integrity: bool,
    /// Answer entitlement checks from the list of demo users.
    pub demo_mode: bool,
}

impl Default for InitConfig {
    fn default() -> (config: InitConfig)
        ensures
            !config.auto_integrity,
            !config.demo_mode,
    {
        InitConfig { auto_integrity: false, demo_mode: false }
    }
}

/// The result codes of an entitlement check.
#[derive(Debug, Clone, Copy, PartialEq, Eq, Structural)]
pub enum EntitlementCode {
    /// The user is entitled.
    Entitled,
    /// The user is not entitled, or no licence was found.
    NotEntitled,
    /// The licence has expired.
    Expired,
    /// The licence's signature is invalid.
    SignatureInvalid,
    /// The cache is corrupt.
    CacheCorrupt,
    /// The network or the disk failed.
    NetworkError,
    /// Any other failure.
    Error,
}

/// What an entitlement check found.
#[derive(Debug, Clone, Copy)]
pub struct EntitlementResult {
    pub entitled: bool,
    pub code: EntitlementCode,
}

/// A user of demo mode.
pub struct DemoUser {
    pub name: String,
    pub entitled: bool,
}

/// The entitlement that a list of demo users gives a name: that of the last
/// entry with the name.
pub open spec fn find_user(users: Seq<DemoUser>, name: Seq<char>) -> Option<bool>
    decreases users.len(),
{
    if users.len() == 0 {
        None
    } else if users.last().name@ == name {
        Some(users.last().entitled)
    } else {
        find_user(users.drop_last(), name)
    }
}

/// The demo users as a map from names to entitlements.
pub open spec fn users_map(users: Seq<DemoUser>) -> Map<Seq<char>, bool> {
    Map::new(|name: Seq<char>| find_user(users, name).is_some(), |name: Seq<char>| find_user(users, name).unwrap())
}

/// The users that demo mode starts with.
pub open spec fn demo_defaults() -> Map<Seq<char>, bool> {
    Map::<Seq<char>, bool>::empty().insert("demo_player_123"@, true).insert("valid_user"@, true).insert(
        "expired_user"@,
        false,
    ).insert("test_player"@, true)
}

/// What a check finds for a user, given the mode and the demo users.
pub open spec fn entitlement_of(demo_mode: bool, users: Map<Seq<char>, bool>, user: Seq<char>) -> (
    bool,
    EntitlementCode,
) {
    if !demo_mode {
        (false, EntitlementCode::Error)
    } else if !users.contains_key(user) {
        (false, EntitlementCode::NotEntitled)
    } else if users[user] {
        (true, EntitlementCode::Entitled)
    } else {
        (false, EntitlementCode::Expired)
    }
}

/// What the simulation answers to a kind of threat.
pub open spec fn threat_response(threat: Seq<char>) -> Seq<char> {
    if threat == "debugger"@ {
        "Demo: Debugger detected - switching to degraded mode"@
    } else if threat == "memory_scan"@ {
        "Demo: Memory scanning detected - enabling enhanced protection"@
    } else if threat == "injection"@ {
        "Demo: Code injection attempt blocked - maintaining normal operation"@
    } else {
        "Demo: Unknown threat type - no action taken"@
    }
}

/// The state behind the SDK's interface.
pub struct SdkHandle {
    integrity_enabled: bool,
    demo_mode: bool,
    demo_entitlements: Vec<DemoUser>,
}

/// What an [`SdkHandle`] holds, as mathematical values.
pub struct HandleView {
    pub integrity_enabled: bool,
    pub demo_mode: bool,
    pub entitlements: Map<Seq<char>, bool>,
}

impl View for SdkHandle {
    type V = HandleView;

    closed spec fn view(&self) -> HandleView {
        HandleView {
            integrity_enabled: self.integrity_enabled,
            demo_mode: self.demo_mode,
            entitlements: users_map(self.demo_entitlements@),
        }
    }
}

/// Adding a user at the end gives the name that entitlement and leaves the
/// other names as they were.
proof fn lemma_push_user(users: Seq<DemoUser>, user: DemoUser)
    ensures
        users_map(users.push(user)) == users_map(users).insert(user.name@, user.entitled),
{
    let after = users.push(user);
    assert(after.drop_last() =~= users);
    assert(after.last() == user);
    assert forall|name: Seq<char>| #[trigger]
        find_user(after, name) == if name == user.name@ {
            Some(user.entitled)
        } else {
            find_user(users, name)
        } by {}
    assert(users_map(after) =~= users_map(users).insert(user.name@, user.entitled));
}

impl SdkHandle {
    /// A handle as the configuration asks for it. In demo mode it knows the
    /// default demo users; integrity monitoring is on exactly if asked for.
    pub fn init(cfg: InitConfig) -> (r: Result<SdkHandle, SdkError>)
        ensures
            r is Ok,
            r->Ok_0@.integrity_enabled == cfg.auto_integrity,
            r->Ok_0@.demo_mode == cfg.demo_mode,
            r->Ok_0@.entitlements == if cfg.demo_mode {
                demo_defaults()
            } else {
                Map::<Seq<char>, bool>::empty()
            },
    {
        let mut handle = SdkHandle {
            integrity_enabled: false,
            demo_mode: cfg.demo_mode,
            demo_entitlements: Vec::new(),
        };
        assert(users_map(handle.demo_entitlements@) =~= Map::<Seq<char>, bool>::empty());
        if cfg.demo_mode {
            handle.put_user("demo_player_123", true);
            handle.put_user("valid_user", true);
            handle.put_user("expired_user", false);
            handle.put_user("test_player", true);
        }
        if cfg.auto_integrity {
            let _ = handle.enable_integrity();
        }
        Ok(handle)
    }

    fn put_user(&mut self, user: &str, entitled: bool)
        ensures
            final(self)@ == (HandleView {
                entitlements: old(self)@.entitlements.insert(user@, entitled),
                ..old(self)@
            }),
    {
        let entry = DemoUser { name: user.to_owned(), entitled };
        proof {
            lemma_push_user(self.demo_entitlements@, entry);
        }
        self.demo_entitlements.push(entry);
    }

    /// Switches integrity monitoring on. This cannot fail.
    pub fn enable_integrity(&mut self) -> (r: Result<(), SdkError>)
        ensures
            r is Ok,
            final(self)@ == (HandleView { integrity_enabled: true, ..old(self)@ }),
    {
        self.integrity_enabled = true;
        Ok(())
    }

    /// Switches integrity monitoring off.
    pub fn disable_integrity(&mut self)
        ensures
            final(self)@ == (HandleView { integrity_enabled: false, ..old(self)@ }),
    {
        self.integrity_enabled = false;
    }

    /// Checks a user's entitlement. Outside demo mode there is nothing to ask
    /// and the check ends in an error; in demo mode a known user is entitled or
    /// expired, and an unknown one is not entitled.
    pub fn check_entitlement(&self, user: &str) -> (result: EntitlementResult)
        ensures
            (result.entitled, result.code) == entitlement_of(self@.demo_mode, self@.entitlements, user@),
    {
        if !self.demo_mode {
            return EntitlementResult { entitled: false, code: EntitlementCode::Error };
        }
        let wanted = user.to_owned();
        let mut i: usize = self.demo_entitlements.len();
        assert(self.demo_entitlements@.take(i as int) =~= self.demo_entitlements@);
        while i > 0
            invariant
                i <= self.demo_entitlements@.len(),
                self.demo_mode,
                wanted@ == user@,
                find_user(self.demo_entitlements@, user@) == find_user(
                    self.demo_entitlements@.take(i as int),
                    user@,
                ),
            decreases i,
        {
            let ghost seen = self.demo_entitlements@.take(i as int);
            assert(seen.last() == self.demo_entitlements@[i - 1]);
            assert(seen.drop_last() =~= self.demo_entitlements@.take(i - 1));
            i -= 1;
            let entry = &self.demo_entitlements[i];
            if entry.name == wanted {
                assert(find_user(seen, user@) == Some(entry.entitled));
                let code = if entry.entitled {
                    EntitlementCode::Entitled
                } else {
                    EntitlementCode::Expired
                };
                return EntitlementResult { entitled: entry.entitled, code };
            }
        }
        EntitlementResult { entitled: false, code: EntitlementCode::NotEntitled }
    }

    /// Whether integrity monitoring is on.
    pub fn is_integrity_enabled(&self) -> (on: bool)
        ensures
            on == self@.integrity_enabled,
    {
        self.integrity_enabled
    }

    /// Whether the handle is in demo mode.
    pub fn is_demo_mode(&self) -> (on: bool)
        ensures
            on == self@.demo_mode,
    {
        self.demo_mode
    }

    /// Gives a demo user an entitlement, new or in place of the one it had.
    /// Outside demo mode this is an error and changes nothing.
    pub fn add_demo_user(&mut self, user: &str, entitled: bool) -> (r: Result<(), SdkError>)
        ensures
            old(self)@.demo_mode ==> r is Ok && final(self)@ == (HandleView {
                entitlements: old(self)@.entitlements.insert(user@, entitled),
                ..old(self)@
            }),
            !old(self)@.demo_mode ==> final(self)@ == old(self)@ && r is Err && r->Err_0 is Init
                && r->Err_0->Init_0@ == "Demo user management requires demo_mode=true"@,
    {
        if !self.demo_mode {
            return Err(SdkError::Init(String::from_str("Demo user management requires demo_mode=true")));
        }
        self.put_user(user, entitled);
        Ok(())
    }

    /// Answers a simulated threat. Outside demo mode this is an error.
    pub fn simulate_threat(&self, threat_type: &str) -> (r: Result<String, SdkError>)
        ensures
            self@.demo_mode ==> r is Ok && r->Ok_0@ == threat_response(threat_type@),
            !self@.demo_mode ==> r is Err && r->Err_0 is Init && r->Err_0->Init_0@
                == "Threat simulation requires demo_mode=true"@,
    {
        if !self.demo_mode {
            return Err(SdkError::Init(String::from_str("Threat simulation requires demo_mode=true")));
        }
        let threat = threat_type.to_owned();
        let response = if threat == String::from_str("debugger") {
            "Demo: Debugger detected - switching to degraded mode"
        } else if threat == String::from_str("memory_scan") {
            "Demo: Memory scanning detected - enabling enhanced protection"
        } else if threat == String::from_str("injection") {
            "Demo: Code injection attempt blocked - maintaining normal operation"
        } else {
            "Demo: Unknown threat type - no action taken"
        };
        Ok(String::from_str(response))
    }
}

} // verus!
