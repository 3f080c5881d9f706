//! The renderer: a pure function from the application state to a screen
//! description.
//!
//! The description is plain data — which screen to draw and the values to
//! show on it. The shell turns it into actual widgets; nothing here performs
//! I/O. A description never presumes a field that is not there yet: while a
//! quote is still in flight the Invoice screen's description simply carries
//! no QR code.

use crate::state::{AppState, Screen, StateModel};
use vstd::prelude::*;

verus! {

/// What one screen shows, as plain data.
#[derive(Clone, PartialEq, Eq, Debug)]
pub enum ScreenDesc {
    /// No wallet yet: offer only the New Wallet action.
    Init,
    /// The balance and the Receive / Send choices.
    Main { balance: u64 },
    /// The pasted-token input, the Claim action, the amount input and the
    /// Create Invoice action.
    Receive { pasted_token: String, receive_amount: u64 },
    /// The balance, the bolt11 input, the Pay Invoice action, the amount
    /// input and the Create Token action.
    Pay { balance: u64, pay_invoice: String, send_amount: u64 },
    /// The payment request with its QR code (absent while none has been
    /// derived yet) and the Copy action.
    Invoice { invoice: String, qr_present: bool },
    /// The encoded token and the Copy action.
    Token { token: String },
}

/// Mathematical model of a [`ScreenDesc`].
#[verifier::ext_equal]
pub enum ScreenDescModel {
    Init,
    Main { balance: u64 },
    Receive { pasted_token: Seq<char>, receive_amount: u64 },
    Pay { balance: u64, pay_invoice: Seq<char>, send_amount: u64 },
    Invoice { invoice: Seq<char>, qr_present: bool },
    Token { token: Seq<char> },
}

impl View for ScreenDesc {
    type V = ScreenDescModel;

    open spec fn view(&self) -> ScreenDescModel {
        match self {
            ScreenDesc::Init => ScreenDescModel::Init,
            ScreenDesc::Main { balance } => (ScreenDescModel::Main { balance: *balance }),
            ScreenDesc::Receive { pasted_token, receive_amount } => (ScreenDescModel::Receive {
                pasted_token: pasted_token@,
                receive_amount: *receive_amount,
            }),
            ScreenDesc::Pay { balance, pay_invoice, send_amount } => (ScreenDescModel::Pay {
                balance: *balance,
                pay_invoice: pay_invoice@,
                send_amount: *send_amount,
            }),
            ScreenDesc::Invoice { invoice, qr_present } => (ScreenDescModel::Invoice {
                invoice: invoice@,
                qr_present: *qr_present,
            }),
            ScreenDesc::Token { token } => (ScreenDescModel::Token { token: token@ }),
        }
    }
}

/// A full frame: the screen to draw and the error banner beside it (empty
/// when no failure is being shown).
#[derive(Clone, PartialEq, Eq, Debug)]
pub struct Frame {
    /// The screen to draw.
    pub screen: ScreenDesc,
    /// Text of the last failure, empty when there is none.
    pub error: String,
}

/// Mathematical model of a [`Frame`].
#[verifier::ext_equal]
pub struct FrameModel {
    pub screen: ScreenDescModel,
    pub error: Seq<char>,
}

impl View for Frame {
    type V = FrameModel;

    open spec fn view(&self) -> FrameModel {
        FrameModel { screen: self.screen@, error: self.error@ }
    }
}

/// The screen rendered for a given state: the initialization screen while
/// no wallet exists, else the current screen with its fields.
pub open spec fn screen_spec(s: StateModel) -> ScreenDescModel {
    if !s.wallet_ready {
        ScreenDescModel::Init
    } else {
        match s.screen {
            Screen::Main => ScreenDescModel::Main { balance: s.balance },
            Screen::Receive => ScreenDescModel::Receive {
                pasted_token: s.data,
                receive_amount: s.receive_amount,
            },
            Screen::Pay => ScreenDescModel::Pay {
                balance: s.balance,
                pay_invoice: s.pay_invoice,
                send_amount: s.send_amount,
            },
            Screen::Invoice => ScreenDescModel::Invoice {
                invoice: s.invoice,
                qr_present: s.qr_present,
            },
            Screen::Token => ScreenDescModel::Token { token: s.token },
        }
    }
}

/// What is rendered for a given state: the screen plus the error banner.
pub open spec fn render_spec(s: StateModel) -> FrameModel {
    FrameModel { screen: screen_spec(s), error: s.error }
}

/// Render the state: a side-effect-free description of what to draw.
pub fn render(s: &AppState) -> (r: Frame)
    ensures
        r@ == render_spec(s@),
{
    let screen = if !s.wallet_ready {
        ScreenDesc::Init
    } else {
        match s.screen {
            Screen::Main => ScreenDesc::Main { balance: s.balance },
            Screen::Receive => ScreenDesc::Receive {
                pasted_token: s.data.clone(),
                receive_amount: s.receive_amount,
            },
            Screen::Pay => ScreenDesc::Pay {
                balance: s.balance,
                pay_invoice: s.pay_invoice.clone(),
                send_amount: s.send_amount,
            },
            Screen::Invoice => ScreenDesc::Invoice {
                invoice: s.invoice.clone(),
                qr_present: s.qr_present,
            },
            Screen::Token => ScreenDesc::Token { token: s.token.clone() },
        }
    };
    let r = Frame { screen, error: s.error.clone() };
    proof {
        assert(r@ =~= render_spec(s@));
    }
    r
}

} // verus!
