//! The part of the screen that shows how a backup or a restore is going.

use vstd::prelude::*;

verus! {

/// What the panel shows.
pub struct BackupPanel {
    pub error: String,
    pub success: String,
    /// Records that wait for the user to confirm a restore.
    pub restore_count: i32,
}

/// Mathematical counterpart of [`BackupPanel`].
pub struct PanelView {
    pub error: Seq<char>,
    pub success: Seq<char>,
    pub restore_count: i32,
}

impl View for BackupPanel {
    type V = PanelView;

    open spec fn view(&self) -> PanelView {
        PanelView {
            error: self.error@,
            success: self.success@,
            restore_count: self.restore_count,
        }
    }
}

impl PanelView {
    /// The panel shows at most one thing at a time.
    pub open spec fn valid(self) -> bool {
        &&& self.error.len() == 0 || self.success.len() == 0
        &&& self.restore_count != 0 ==> self.error.len() == 0 && self.success.len() == 0
    }
}

/// A panel that shows an error.
pub open spec fn error_panel(msg: Seq<char>) -> PanelView {
    PanelView { error: msg, success: Seq::empty(), restore_count: 0 }
}

/// A panel that shows a success.
pub open spec fn success_panel(msg: Seq<char>) -> PanelView {
    PanelView { error: Seq::empty(), success: msg, restore_count: 0 }
}

/// A panel that asks to confirm the restore of `count` records.
pub open spec fn confirm_panel(count: usize) -> PanelView {
    PanelView { error: Seq::empty(), success: Seq::empty(), restore_count: count as i32 }
}

impl BackupPanel {
    /// A panel that shows nothing.
    pub fn new() -> (panel: BackupPanel)
        ensures
            panel@ == (PanelView {
                error: Seq::empty(),
                success: Seq::empty(),
                restore_count: 0,
            }),
            panel@.valid(),
    {
        BackupPanel { error: String::new(), success: String::new(), restore_count: 0 }
    }
}

/// Shows an error and nothing else.
pub fn set_error(panel: &mut BackupPanel, msg: &str)
    ensures
        final(panel)@ == error_panel(msg@),
        final(panel)@.valid(),
{
    panel.error = msg.to_owned();
    panel.success = String::new();
    panel.restore_count = 0;
}

/// Shows a success and nothing else.
pub fn set_success(panel: &mut BackupPanel, msg: &str)
    ensures
        final(panel)@ == success_panel(msg@),
        final(panel)@.valid(),
{
    panel.success = msg.to_owned();
    panel.error = String::new();
    panel.restore_count = 0;
}

/// Asks to confirm the restore of `count` records and shows nothing else.
pub fn set_restore_count(panel: &mut BackupPanel, count: usize)
    ensures
        final(panel)@ == confirm_panel(count),
        count <= i32::MAX ==> final(panel)@.restore_count == count,
        final(panel)@.valid(),
{
    #[verifier::truncate]
    let shown: i32 = count as i32;
    panel.restore_count = shown;
    panel.error = String::new();
    panel.success = String::new();
}

/// Each panel shows what it is asked to show, whole, and nothing else.
pub proof fn law_panels_show_their_message(msg: Seq<char>)
    ensures
        error_panel(msg).error == msg,
        error_panel(msg).success.len() == 0,
        error_panel(msg).restore_count == 0,
        success_panel(msg).success == msg,
        success_panel(msg).error.len() == 0,
        success_panel(msg).restore_count == 0,
{
}

/// A panel that asks for confirmation shows the count, as far as 32 bits hold it,
/// and no message.
pub proof fn law_confirmation_shows_the_count(count: usize)
    ensures
        count <= 0x7fff_ffff ==> confirm_panel(count).restore_count == count,
        (confirm_panel(count).restore_count - count) % 0x1_0000_0000 == 0,
        confirm_panel(count).error.len() == 0,
        confirm_panel(count).success.len() == 0,
{
    let shown = count as i32;
    assert((shown - count) % 0x1_0000_0000 == 0) by (bit_vector)
        requires
            shown == count as i32,
    ;
}

/// A panel is valid exactly if it shows at most one of its three parts.
pub proof fn law_panel_shows_at_most_one_thing(panel: PanelView)
    ensures
        panel.valid() <==> !(panel.error.len() > 0 && panel.success.len() > 0) && !(
        panel.error.len() > 0 && panel.restore_count != 0) && !(panel.success.len() > 0
            && panel.restore_count != 0),
{
}

/// The view of a panel loses nothing.
pub proof fn law_panel_view_is_faithful(panel: BackupPanel)
    ensures
        panel@.error == panel.error@,
        panel@.success == panel.success@,
        panel@.restore_count == panel.restore_count,
{
}

} // verus!
