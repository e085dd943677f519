//! Output layouts for the sway compositor.
//!
//! Each screen has a fixed output name, position, mode and refresh rate; each
//! menu command is a fixed script of sway commands over them.
use vstd::prelude::*;

verus! {

/// One of the two display outputs.
#[derive(Clone, Copy, PartialEq, Eq, Debug, Structural)]
pub enum Screen {
    Desktop,
    TV,
}

/// A command of the menu.
#[derive(Clone, Copy, PartialEq, Eq, Debug, Structural)]
pub enum Command {
    /// Only the TV: place and enable it, disable the desktop monitor.
    TvOnly,
    /// Only the desktop monitor: place and enable it, disable the TV.
    DesktopOnly,
    /// Both outputs, side by side.
    TvAndDesktop,
    /// The TV only, on workspace 8, then launch the game client in Big Picture.
    EnableSteamMode,
}

impl Screen {
    pub open spec fn sway_id_spec(self) -> Seq<char> {
        match self {
            Screen::Desktop => "DP-2"@,
            Screen::TV => "HDMI-A-1"@,
        }
    }

    pub open spec fn resolution_spec(self) -> Seq<char> {
        match self {
            Screen::Desktop => "3440x1440"@,
            Screen::TV => "1920x1080"@,
        }
    }

    pub open spec fn position_spec(self) -> Seq<char> {
        match self {
            Screen::Desktop => "1920 0"@,
            Screen::TV => "0 0"@,
        }
    }

    pub open spec fn refresh_rate_spec(self) -> Seq<char> {
        "59.999Hz"@
    }

    /// The sway output name.
    pub fn sway_id(&self) -> (r: &'static str)
        ensures
            r@ == self.sway_id_spec(),
    {
        match self {
            Screen::Desktop => "DP-2",
            Screen::TV => "HDMI-A-1",
        }
    }

    /// The mode, as width x height.
    pub fn resolution(&self) -> (r: &'static str)
        ensures
            r@ == self.resolution_spec(),
    {
        match self {
            Screen::Desktop => "3440x1440",
            Screen::TV => "1920x1080",
        }
    }

    /// The position of the output's top left corner, as "x y".
    pub fn position(&self) -> (r: &'static str)
        ensures
            r@ == self.position_spec(),
    {
        match self {
            Screen::Desktop => "1920 0",
            Screen::TV => "0 0",
        }
    }

    /// The refresh rate, with its unit.
    pub fn refresh_rate(&self) -> (r: &'static str)
        ensures
            r@ == self.refresh_rate_spec(),
    {
        "59.999Hz"
    }

    pub open spec fn place_command_spec(self) -> Seq<char> {
        "output "@ + self.sway_id_spec() + " pos "@ + self.position_spec() + " res "@
            + self.resolution_spec() + "@"@ + self.refresh_rate_spec()
    }

    pub open spec fn enable_command_spec(self) -> Seq<char> {
        "output "@ + self.sway_id_spec() + " enable"@
    }

    pub open spec fn disable_command_spec(self) -> Seq<char> {
        "output "@ + self.sway_id_spec() + " disable"@
    }

    /// The sway command that sets the output's position and mode.
    pub fn place_command(&self) -> (r: String)
        ensures
            r@ == self.place_command_spec(),
    {
        let mut r = String::from_str("output ");
        r.append(self.sway_id());
        r.append(" pos ");
        r.append(self.position());
        r.append(" res ");
        r.append(self.resolution());
        r.append("@");
        r.append(self.refresh_rate());
        r
    }

    /// The sway command that turns the output on.
    pub fn enable_command(&self) -> (r: String)
        ensures
            r@ == self.enable_command_spec(),
    {
        let mut r = String::from_str("output ");
        r.append(self.sway_id());
        r.append(" enable");
        r
    }

    /// The sway command that turns the output off.
    pub fn disable_command(&self) -> (r: String)
        ensures
            r@ == self.disable_command_spec(),
    {
        let mut r = String::from_str("output ");
        r.append(self.sway_id());
        r.append(" disable");
        r
    }
}

/// The sway commands that show only `s` and turn `other` off.
pub open spec fn only_script(s: Screen, other: Screen) -> Seq<Seq<char>> {
    seq![s.place_command_spec(), s.enable_command_spec(), other.disable_command_spec()]
}

impl Command {
    /// The sway commands of the command, in the order they are sent.
    pub open spec fn script(self) -> Seq<Seq<char>> {
        match self {
            Command::TvOnly => only_script(Screen::TV, Screen::Desktop),
            Command::DesktopOnly => only_script(Screen::Desktop, Screen::TV),
            Command::TvAndDesktop => seq![
                Screen::TV.place_command_spec(),
                Screen::TV.enable_command_spec(),
                Screen::Desktop.place_command_spec(),
                Screen::Desktop.enable_command_spec(),
            ],
            Command::EnableSteamMode => only_script(Screen::TV, Screen::Desktop).push(
                "workspace 8"@,
            ),
        }
    }

    /// The sway commands to send, in order.
    pub fn sway_commands(&self) -> (r: Vec<String>)
        ensures
            r@.len() == self.script().len(),
            forall|i: int| 0 <= i < r@.len() ==> r@[i]@ == self.script()[i],
    {
        let mut r: Vec<String> = Vec::new();
        match self {
            Command::TvOnly => {
                r.push(Screen::TV.place_command());
                r.push(Screen::TV.enable_command());
                r.push(Screen::Desktop.disable_command());
            },
            Command::DesktopOnly => {
                r.push(Screen::Desktop.place_command());
                r.push(Screen::Desktop.enable_command());
                r.push(Screen::TV.disable_command());
            },
            Command::TvAndDesktop => {
                r.push(Screen::TV.place_command());
                r.push(Screen::TV.enable_command());
                r.push(Screen::Desktop.place_command());
                r.push(Screen::Desktop.enable_command());
            },
            Command::EnableSteamMode => {
                r.push(Screen::TV.place_command());
                r.push(Screen::TV.enable_command());
                r.push(Screen::Desktop.disable_command());
                r.push(String::from_str("workspace 8"));
            },
        }
        r
    }

    /// Whether the command ends by launching the game client.
    pub fn launches_client(&self) -> (r: bool)
        ensures
            r == (*self == Command::EnableSteamMode),
    {
        match self {
            Command::EnableSteamMode => true,
            _ => false,
        }
    }
}

} // verus!
