//! What the utility is allowed to do on this machine, and how to tell the
//! user what is missing.

use crate::i18n::I18n;
use crate::platform::Platform;
use crate::text::{join_lines, joined, line_views};
use vstd::prelude::*;

verus! {

/// The outcome of the permission check.
#[derive(Debug, Clone)]
pub struct PermissionStatus {
    /// Whether keyboard input can be simulated.
    pub keyboard_simulation: bool,
    /// Whether the clipboard can be read.
    pub clipboard_access: bool,
    /// What is wrong, in words.
    pub issues: Vec<String>,
}

/// The key of the advice given on a platform when the synthetic keyboard
/// cannot be opened.
pub open spec fn keyboard_issue_key(platform: Platform) -> Seq<char> {
    match platform {
        Platform::Windows => "permissions.windows.enigo_fail_issue"@,
        Platform::MacOs => "permissions.macos.accessibility_fix"@,
        Platform::Linux => "permissions.linux.add_to_input_group"@,
    }
}

/// The issue noted on a platform when the synthetic keyboard cannot be
/// opened, `error` being the platform's message: on Windows the message is
/// passed on, elsewhere the advice stands alone.
pub open spec fn keyboard_issue(i18n: I18n, platform: Platform, error: Seq<char>) -> Seq<char> {
    match platform {
        Platform::Windows => i18n.catalogs().resolved_with(
            i18n.language(),
            keyboard_issue_key(platform),
            "err"@,
            error,
        ),
        _ => i18n.resolved(keyboard_issue_key(platform)),
    }
}

/// The key of the instructions for a platform.
pub open spec fn fix_instructions_key(platform: Platform) -> Seq<char> {
    match platform {
        Platform::Windows => "permissions.fix.windows"@,
        Platform::MacOs => "permissions.fix.macos"@,
        Platform::Linux => "permissions.fix.linux"@,
    }
}

impl PermissionStatus {
    /// The lines of the warning: one for each permission that is missing,
    /// then the issues.
    pub open spec fn warning_lines(self, i18n: I18n) -> Seq<Seq<char>> {
        (if self.keyboard_simulation {
            Seq::<Seq<char>>::empty()
        } else {
            seq![i18n.resolved("permissions.warn_keyboard"@)]
        }) + (if self.clipboard_access {
            Seq::<Seq<char>>::empty()
        } else {
            seq![i18n.resolved("permissions.warn_clipboard"@)]
        }) + line_views(self.issues@)
    }

    /// Whether nothing is missing.
    #[verifier::when_used_as_spec(spec_all_granted)]
    pub fn all_granted(&self) -> (r: bool)
        ensures
            r == self.spec_all_granted(),
    {
        self.keyboard_simulation && self.clipboard_access
    }

    pub open spec fn spec_all_granted(&self) -> bool {
        self.keyboard_simulation && self.clipboard_access
    }

    /// The warning to show: none where nothing is missing, else the warning
    /// lines, one per line.
    pub fn get_warning_message(&self, i18n: &I18n) -> (r: Option<String>)
        ensures
            self.all_granted() ==> r is None,
            !self.all_granted() ==> (r matches Some(message) && message@ == joined(
                self.warning_lines(*i18n),
                "\n"@,
            )),
    {
        if self.all_granted() {
            None
        } else {
            let mut messages: Vec<String> = Vec::new();
            if !self.keyboard_simulation {
                messages.push(i18n.t("permissions.warn_keyboard"));
            }
            if !self.clipboard_access {
                messages.push(i18n.t("permissions.warn_clipboard"));
            }
            let mut i: usize = 0;
            let ghost head = line_views(messages@);
            while i < self.issues.len()
                invariant
                    i <= self.issues@.len(),
                    line_views(messages@) == head + line_views(self.issues@).take(i as int),
                decreases self.issues@.len() - i,
            {
                let ghost held = line_views(messages@);
                let issue = self.issues[i].clone();
                messages.push(issue);
                assert(line_views(messages@) =~= held.push(self.issues@[i as int]@));
                i += 1;
                assert(line_views(self.issues@).take(i as int) =~= line_views(self.issues@).take(
                    i - 1,
                ).push(self.issues@[i - 1]@));
                assert(line_views(messages@) =~= head + line_views(self.issues@).take(i as int));
            }
            assert(line_views(self.issues@).take(i as int) =~= line_views(self.issues@));
            assert(line_views(messages@) =~= self.warning_lines(*i18n));
            Some(join_lines(&messages, "\n"))
        }
    }
}

/// Judges the permissions from the attempt to open the synthetic keyboard:
/// `probe` is `Ok` where it opened, else the platform's message. Keyboard
/// simulation is granted exactly where it opened; clipboard access is not
/// restricted on any platform; a failed attempt leaves one issue.
pub fn check_permissions(i18n: &I18n, platform: Platform, probe: Result<(), String>) -> (r:
    PermissionStatus)
    ensures
        r.keyboard_simulation == probe is Ok,
        r.clipboard_access,
        probe is Ok ==> r.issues@.len() == 0,
        probe matches Err(error) ==> r.issues@.len() == 1 && r.issues@[0]@ == keyboard_issue(
            *i18n,
            platform,
            error@,
        ),
{
    let mut issues: Vec<String> = Vec::new();
    let keyboard_ok = match probe {
        Ok(_) => true,
        Err(error) => {
            let issue = match platform {
                Platform::Windows => i18n.tr_one(
                    "permissions.windows.enigo_fail_issue",
                    "err",
                    error.as_str(),
                ),
                Platform::MacOs => i18n.t("permissions.macos.accessibility_fix"),
                Platform::Linux => i18n.t("permissions.linux.add_to_input_group"),
            };
            issues.push(issue);
            false
        },
    };
    PermissionStatus { keyboard_simulation: keyboard_ok, clipboard_access: true, issues }
}

/// How to mend missing permissions on a platform.
pub fn get_permission_fix_instructions(i18n: &I18n, platform: Platform) -> (r: String)
    ensures
        r@ == i18n.resolved(fix_instructions_key(platform)),
{
    match platform {
        Platform::Windows => i18n.t("permissions.fix.windows"),
        Platform::MacOs => i18n.t("permissions.fix.macos"),
        Platform::Linux => i18n.t("permissions.fix.linux"),
    }
}

} // verus!
