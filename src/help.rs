//! The help legend's state: two lists of commands and which of them is shown.

use vstd::prelude::*;
use crate::command::CommandInfo;

verus! {

/// The commands of normal mode and of filter mode, and which list is shown.
pub struct HelpComponent {
    normal_commands: Vec<CommandInfo>,
    filter_commands: Vec<CommandInfo>,
    filter_mode: bool,
}

impl HelpComponent {
    /// The commands of normal mode.
    pub closed spec fn normal_view(&self) -> Seq<CommandInfo> {
        self.normal_commands@
    }

    /// The commands of filter mode.
    pub closed spec fn filter_view(&self) -> Seq<CommandInfo> {
        self.filter_commands@
    }

    /// Whether filter mode is on.
    pub closed spec fn in_filter_mode(&self) -> bool {
        self.filter_mode
    }

    /// A legend in normal mode.
    pub fn new(normal_commands: Vec<CommandInfo>, filter_commands: Vec<CommandInfo>) -> (r:
        HelpComponent)
        ensures
            r.normal_view() == normal_commands@,
            r.filter_view() == filter_commands@,
            !r.in_filter_mode(),
    {
        HelpComponent { normal_commands, filter_commands, filter_mode: false }
    }

    /// Shows the commands of filter mode.
    pub fn activate_filter_mode(&mut self)
        ensures
            final(self).in_filter_mode(),
            final(self).normal_view() == old(self).normal_view(),
            final(self).filter_view() == old(self).filter_view(),
    {
        self.filter_mode = true;
    }

    /// Shows the commands of normal mode.
    pub fn deactivate_filter_mode(&mut self)
        ensures
            !final(self).in_filter_mode(),
            final(self).normal_view() == old(self).normal_view(),
            final(self).filter_view() == old(self).filter_view(),
    {
        self.filter_mode = false;
    }

    /// The commands shown now.
    pub fn active_commands(&self) -> (r: &Vec<CommandInfo>)
        ensures
            r@ == if self.in_filter_mode() {
                self.filter_view()
            } else {
                self.normal_view()
            },
    {
        if self.filter_mode {
            &self.filter_commands
        } else {
            &self.normal_commands
        }
    }

    /// The commands of normal mode.
    pub fn normal_commands(&self) -> (r: &Vec<CommandInfo>)
        ensures
            r@ == self.normal_view(),
    {
        &self.normal_commands
    }
}

} // verus!
