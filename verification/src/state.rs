//! The view state machine.
//!
//! The wallet's user interface is driven by a single state value and a
//! transition function: every user interaction and every completion of a
//! dispatched wallet operation arrives as a [`Message`], and [`AppState::update`]
//! turns the current state and that message into the next state plus one
//! [`Effect`] for the shell to perform (dispatch an async wallet operation,
//! write to the clipboard, or nothing). The shell performs effects and feeds
//! their results back in as further messages; it never touches the state
//! directly.

use crate::amount::{amount_of, parse_amount};
use vstd::prelude::*;

verus! {

/// The wallet's screens. Until the wallet-creation task has completed only
/// an initialization screen is shown; once a wallet exists, `Screen` names
/// the screen rendered.
#[derive(Clone, Copy, PartialEq, Eq, Structural, Debug)]
pub enum Screen {
    Main,
    Receive,
    Pay,
    Invoice,
    Token,
}

/// Events delivered into the state machine: user interactions and the
/// completions of dispatched wallet operations.
#[derive(Clone, PartialEq, Eq, Debug)]
pub enum Message {
    /// The pasted-token input on the Receive screen changed.
    DataChanged(String),
    /// The amount input on the Receive screen changed.
    ReceiveDataChanged(String),
    /// The amount input on the Pay screen changed.
    SendDataChanged(String),
    /// Navigate from Main to the Pay screen.
    Pay,
    /// The pasted bolt11 input on the Pay screen changed.
    PayBolt11Change(String),
    /// Pay the pasted bolt11 invoice.
    PayInvoice,
    /// Create a wallet (only action on the initialization screen).
    NewWallet,
    /// The wallet-creation task completed; a wallet handle now exists.
    WalletCreated,
    /// The mint-quote task completed: payment request and quote id.
    MintQuote(String, String),
    /// Navigate from Main to the Receive screen.
    ReceiveEcash,
    /// Claim the pasted token.
    Receive,
    /// The mint task completed, having minted this amount.
    Minted(u64),
    /// A balance-changing operation completed; a fresh query is due.
    CheckBalance(u64),
    /// The balance query completed.
    Balance(u64),
    /// Request an invoice over the entered amount.
    CreateInvoice,
    /// Create a token over the entered amount.
    CreateToken,
    /// The send task completed with an encoded token.
    TokenCreated(String),
    /// Copy the displayed payment request.
    CopyInvoice,
    /// Copy the displayed token.
    CopyToken,
    /// A dispatched operation failed; the text describes the failure.
    OperationFailed(String),
    /// Return to the Main screen, clearing the transient fields.
    Home,
}

/// What the shell must perform after a transition.
#[derive(Clone, PartialEq, Eq, Debug)]
pub enum Effect {
    /// Nothing to perform.
    Nothing,
    /// Dispatch the wallet-creation task.
    SpawnCreateWallet,
    /// Dispatch a balance query.
    SpawnCheckBalance,
    /// Dispatch a mint-quote request over this amount.
    SpawnMintQuote { amount: u64 },
    /// Dispatch the poll-and-mint task for this quote.
    SpawnMint { quote_id: String },
    /// Dispatch redemption of this encoded token.
    SpawnReceive { token: String },
    /// Dispatch a melt of this bolt11 invoice.
    SpawnPayInvoice { bolt11: String },
    /// Dispatch creation of a token over this amount.
    SpawnSend { amount: u64 },
    /// Write this text to the clipboard.
    CopyToClipboard { text: String },
}

/// The application state: one wallet flag, the current screen, the balance,
/// and the transient per-screen input and display fields.
#[derive(Clone, PartialEq, Eq, Debug)]
pub struct AppState {
    /// Whether the wallet-creation task has completed (a wallet handle
    /// exists in the shell).
    pub wallet_ready: bool,
    /// Pasted token text on the Receive screen.
    pub data: String,
    /// Pasted bolt11 text on the Pay screen.
    pub pay_invoice: String,
    /// Payment request of the last mint quote, shown on the Invoice screen.
    pub invoice: String,
    /// Encoded token of the last send, shown on the Token screen.
    pub token: String,
    /// Whether a QR code of the payment request is to be shown.
    pub qr_present: bool,
    /// The screen rendered once a wallet exists.
    pub screen: Screen,
    /// Last reported balance, in satoshis.
    pub balance: u64,
    /// Validated amount in the Receive screen's amount field, in satoshis.
    pub receive_amount: u64,
    /// Validated amount in the Pay screen's amount field, in satoshis.
    pub send_amount: u64,
    /// URL of the mint that every operation targets.
    pub active_mint: String,
    /// Text of the last failed operation's error, empty when none is shown.
    /// Set when a dispatched operation fails, cleared on Home.
    pub error: String,
}

/// Mathematical model of a [`Message`].
pub enum MessageModel {
    DataChanged(Seq<char>),
    ReceiveDataChanged(Seq<char>),
    SendDataChanged(Seq<char>),
    Pay,
    PayBolt11Change(Seq<char>),
    PayInvoice,
    NewWallet,
    WalletCreated,
    MintQuote(Seq<char>, Seq<char>),
    ReceiveEcash,
    Receive,
    Minted(u64),
    CheckBalance(u64),
    Balance(u64),
    CreateInvoice,
    CreateToken,
    TokenCreated(Seq<char>),
    CopyInvoice,
    CopyToken,
    OperationFailed(Seq<char>),
    Home,
}

/// Mathematical model of an [`Effect`].
#[verifier::ext_equal]
pub enum EffectModel {
    Nothing,
    SpawnCreateWallet,
    SpawnCheckBalance,
    SpawnMintQuote { amount: u64 },
    SpawnMint { quote_id: Seq<char> },
    SpawnReceive { token: Seq<char> },
    SpawnPayInvoice { bolt11: Seq<char> },
    SpawnSend { amount: u64 },
    CopyToClipboard { text: Seq<char> },
}

/// Mathematical model of an [`AppState`].
#[verifier::ext_equal]
pub struct StateModel {
    pub wallet_ready: bool,
    pub data: Seq<char>,
    pub pay_invoice: Seq<char>,
    pub invoice: Seq<char>,
    pub token: Seq<char>,
    pub qr_present: bool,
    pub screen: Screen,
    pub balance: u64,
    pub receive_amount: u64,
    pub send_amount: u64,
    pub active_mint: Seq<char>,
    pub error: Seq<char>,
}

impl View for Message {
    type V = MessageModel;

    open spec fn view(&self) -> MessageModel {
        match self {
            Message::DataChanged(d) => MessageModel::DataChanged(d@),
            Message::ReceiveDataChanged(d) => MessageModel::ReceiveDataChanged(d@),
            Message::SendDataChanged(d) => MessageModel::SendDataChanged(d@),
            Message::Pay => MessageModel::Pay,
            Message::PayBolt11Change(d) => MessageModel::PayBolt11Change(d@),
            Message::PayInvoice => MessageModel::PayInvoice,
            Message::NewWallet => MessageModel::NewWallet,
            Message::WalletCreated => MessageModel::WalletCreated,
            Message::MintQuote(request, quote_id) => MessageModel::MintQuote(request@, quote_id@),
            Message::ReceiveEcash => MessageModel::ReceiveEcash,
            Message::Receive => MessageModel::Receive,
            Message::Minted(a) => MessageModel::Minted(*a),
            Message::CheckBalance(a) => MessageModel::CheckBalance(*a),
            Message::Balance(a) => MessageModel::Balance(*a),
            Message::CreateInvoice => MessageModel::CreateInvoice,
            Message::CreateToken => MessageModel::CreateToken,
            Message::TokenCreated(t) => MessageModel::TokenCreated(t@),
            Message::CopyInvoice => MessageModel::CopyInvoice,
            Message::CopyToken => MessageModel::CopyToken,
            Message::OperationFailed(e) => MessageModel::OperationFailed(e@),
            Message::Home => MessageModel::Home,
        }
    }
}

impl View for Effect {
    type V = EffectModel;

    open spec fn view(&self) -> EffectModel {
        match self {
            Effect::Nothing => EffectModel::Nothing,
            Effect::SpawnCreateWallet => EffectModel::SpawnCreateWallet,
            Effect::SpawnCheckBalance => EffectModel::SpawnCheckBalance,
            Effect::SpawnMintQuote { amount } => (EffectModel::SpawnMintQuote { amount: *amount }),
            Effect::SpawnMint { quote_id } => (EffectModel::SpawnMint { quote_id: quote_id@ }),
            Effect::SpawnReceive { token } => (EffectModel::SpawnReceive { token: token@ }),
            Effect::SpawnPayInvoice { bolt11 } => (EffectModel::SpawnPayInvoice { bolt11: bolt11@ }),
            Effect::SpawnSend { amount } => (EffectModel::SpawnSend { amount: *amount }),
            Effect::CopyToClipboard { text } => (EffectModel::CopyToClipboard { text: text@ }),
        }
    }
}

impl View for AppState {
    type V = StateModel;

    open spec fn view(&self) -> StateModel {
        StateModel {
            wallet_ready: self.wallet_ready,
            data: self.data@,
            pay_invoice: self.pay_invoice@,
            invoice: self.invoice@,
            token: self.token@,
            qr_present: self.qr_present,
            screen: self.screen,
            balance: self.balance,
            receive_amount: self.receive_amount,
            send_amount: self.send_amount,
            active_mint: self.active_mint@,
            error: self.error@,
        }
    }
}

/// The mint endpoint a freshly created wallet targets.
pub open spec fn default_mint_spec() -> Seq<char> {
    "https://mint.thesimplekid.dev"@
}

/// The default mint endpoint, as a string the shell can use.
pub fn default_mint_url() -> (r: String)
    ensures
        r@ == default_mint_spec(),
{
    "https://mint.thesimplekid.dev".to_owned()
}

/// The state before anything has happened: no wallet, Main screen selected,
/// every field empty.
pub open spec fn init_state() -> StateModel {
    StateModel {
        wallet_ready: false,
        data: Seq::empty(),
        pay_invoice: Seq::empty(),
        invoice: Seq::empty(),
        token: Seq::empty(),
        qr_present: false,
        screen: Screen::Main,
        balance: 0,
        receive_amount: 0,
        send_amount: 0,
        active_mint: Seq::empty(),
        error: Seq::empty(),
    }
}

/// Whether a message acts at all in this state. Until the wallet exists,
/// only the New Wallet action, its completion, and a failure report act;
/// everything else is ignored.
pub open spec fn permitted(s: StateModel, m: MessageModel) -> bool {
    ||| s.wallet_ready
    ||| m is NewWallet
    ||| m is WalletCreated
    ||| m is OperationFailed
}

/// Result of one transition: the next state and the effect to perform.
#[verifier::ext_equal]
pub struct Step {
    pub state: StateModel,
    pub effect: EffectModel,
}

/// The transition function. Everything [`AppState::update`] does is stated
/// here, one arm per message.
pub open spec fn step(s: StateModel, m: MessageModel) -> Step {
    if !permitted(s, m) {
        Step { state: s, effect: EffectModel::Nothing }
    } else {
        match m {
            MessageModel::DataChanged(d) => Step {
                state: StateModel { data: d, ..s },
                effect: EffectModel::Nothing,
            },
            MessageModel::ReceiveDataChanged(d) => Step {
                state: match amount_of(d) {
                    Option::Some(v) => StateModel { receive_amount: v, ..s },
                    Option::None => s,
                },
                effect: EffectModel::Nothing,
            },
            MessageModel::SendDataChanged(d) => Step {
                state: match amount_of(d) {
                    Option::Some(v) => StateModel { send_amount: v, ..s },
                    Option::None => s,
                },
                effect: EffectModel::Nothing,
            },
            MessageModel::Pay => Step {
                state: StateModel { screen: Screen::Pay, ..s },
                effect: EffectModel::Nothing,
            },
            MessageModel::PayBolt11Change(d) => Step {
                state: StateModel { pay_invoice: d, ..s },
                effect: EffectModel::Nothing,
            },
            MessageModel::PayInvoice => Step {
                state: StateModel { screen: Screen::Main, ..s },
                effect: EffectModel::SpawnPayInvoice { bolt11: s.pay_invoice },
            },
            MessageModel::NewWallet => Step {
                state: StateModel { active_mint: default_mint_spec(), ..s },
                effect: EffectModel::SpawnCreateWallet,
            },
            MessageModel::WalletCreated => Step {
                state: StateModel { wallet_ready: true, ..s },
                effect: EffectModel::SpawnCheckBalance,
            },
            MessageModel::MintQuote(request, quote_id) => Step {
                state: StateModel {
                    invoice: request,
                    qr_present: true,
                    screen: Screen::Invoice,
                    ..s
                },
                effect: EffectModel::SpawnMint { quote_id: quote_id },
            },
            MessageModel::ReceiveEcash => Step {
                state: StateModel { screen: Screen::Receive, ..s },
                effect: EffectModel::Nothing,
            },
            MessageModel::Receive => Step {
                state: StateModel { screen: Screen::Main, data: Seq::empty(), ..s },
                effect: EffectModel::SpawnReceive { token: s.data },
            },
            MessageModel::Minted(_) => Step {
                state: StateModel { screen: Screen::Main, ..s },
                effect: EffectModel::SpawnCheckBalance,
            },
            MessageModel::CheckBalance(_) => Step {
                state: s,
                effect: EffectModel::SpawnCheckBalance,
            },
            MessageModel::Balance(a) => Step {
                state: StateModel { balance: a, ..s },
                effect: EffectModel::Nothing,
            },
            MessageModel::CreateInvoice => Step {
                state: s,
                effect: EffectModel::SpawnMintQuote { amount: s.receive_amount },
            },
            MessageModel::CreateToken => Step {
                state: s,
                effect: EffectModel::SpawnSend { amount: s.send_amount },
            },
            MessageModel::TokenCreated(t) => Step {
                state: StateModel { token: t, screen: Screen::Token, ..s },
                effect: EffectModel::Nothing,
            },
            MessageModel::CopyInvoice => Step {
                state: s,
                effect: EffectModel::CopyToClipboard { text: s.invoice },
            },
            MessageModel::CopyToken => Step {
                state: s,
                effect: EffectModel::CopyToClipboard { text: s.token },
            },
            MessageModel::OperationFailed(e) => Step {
                state: StateModel { error: e, ..s },
                effect: EffectModel::Nothing,
            },
            MessageModel::Home => Step {
                state: StateModel {
                    data: Seq::empty(),
                    pay_invoice: Seq::empty(),
                    token: Seq::empty(),
                    qr_present: false,
                    receive_amount: 0,
                    send_amount: 0,
                    screen: Screen::Main,
                    error: Seq::empty(),
                    ..s
                },
                effect: EffectModel::SpawnCheckBalance,
            },
        }
    }
}

impl AppState {
    /// The initial state: no wallet yet, everything empty.
    pub fn new() -> (r: AppState)
        ensures
            r@ == init_state(),
    {
        let r = AppState {
            wallet_ready: false,
            data: String::new(),
            pay_invoice: String::new(),
            invoice: String::new(),
            token: String::new(),
            qr_present: false,
            screen: Screen::Main,
            balance: 0,
            receive_amount: 0,
            send_amount: 0,
            active_mint: String::new(),
            error: String::new(),
        };
        proof {
            assert(r@ =~= init_state());
        }
        r
    }

    /// Apply one message: move to the next state and hand back the effect
    /// the shell must perform. The whole behaviour is pinned to [`step`].
    pub fn update(&mut self, msg: Message) -> (r: Effect)
        ensures
            final(self)@ == step(old(self)@, msg@).state,
            r@ == step(old(self)@, msg@).effect,
    {
        let ghost s0 = self@;
        let ghost m0 = msg@;
        let permitted_now: bool = match &msg {
            Message::NewWallet => true,
            Message::WalletCreated => true,
            Message::OperationFailed(_) => true,
            _ => self.wallet_ready,
        };
        if !permitted_now {
            return Effect::Nothing;
        }
        let r = match msg {
            Message::DataChanged(d) => {
                self.data = d;
                Effect::Nothing
            },
            Message::ReceiveDataChanged(d) => {
                match parse_amount(d.as_str()) {
                    Option::Some(v) => {
                        self.receive_amount = v;
                    },
                    Option::None => {},
                }
                Effect::Nothing
            },
            Message::SendDataChanged(d) => {
                match parse_amount(d.as_str()) {
                    Option::Some(v) => {
                        self.send_amount = v;
                    },
                    Option::None => {},
                }
                Effect::Nothing
            },
            Message::Pay => {
                self.screen = Screen::Pay;
                Effect::Nothing
            },
            Message::PayBolt11Change(d) => {
                self.pay_invoice = d;
                Effect::Nothing
            },
            Message::PayInvoice => {
                self.screen = Screen::Main;
                Effect::SpawnPayInvoice { bolt11: self.pay_invoice.clone() }
            },
            Message::NewWallet => {
                self.active_mint = default_mint_url();
                Effect::SpawnCreateWallet
            },
            Message::WalletCreated => {
                self.wallet_ready = true;
                Effect::SpawnCheckBalance
            },
            Message::MintQuote(request, quote_id) => {
                self.invoice = request;
                self.qr_present = true;
                self.screen = Screen::Invoice;
                Effect::SpawnMint { quote_id }
            },
            Message::ReceiveEcash => {
                self.screen = Screen::Receive;
                Effect::Nothing
            },
            Message::Receive => {
                let pasted = self.data.clone();
                self.data = String::new();
                self.screen = Screen::Main;
                Effect::SpawnReceive { token: pasted }
            },
            Message::Minted(_) => {
                self.screen = Screen::Main;
                Effect::SpawnCheckBalance
            },
            Message::CheckBalance(_) => Effect::SpawnCheckBalance,
            Message::Balance(a) => {
                self.balance = a;
                Effect::Nothing
            },
            Message::CreateInvoice => Effect::SpawnMintQuote { amount: self.receive_amount },
            Message::CreateToken => Effect::SpawnSend { amount: self.send_amount },
            Message::TokenCreated(t) => {
                self.token = t;
                self.screen = Screen::Token;
                Effect::Nothing
            },
            Message::CopyInvoice => Effect::CopyToClipboard { text: self.invoice.clone() },
            Message::CopyToken => Effect::CopyToClipboard { text: self.token.clone() },
            Message::OperationFailed(e) => {
                self.error = e;
                Effect::Nothing
            },
            Message::Home => {
                self.data = String::new();
                self.pay_invoice = String::new();
                self.token = String::new();
                self.qr_present = false;
                self.receive_amount = 0;
                self.send_amount = 0;
                self.screen = Screen::Main;
                self.error = String::new();
                Effect::SpawnCheckBalance
            },
        };
        proof {
            assert(self@ =~= step(s0, m0).state);
            assert(r@ =~= step(s0, m0).effect);
        }
        r
    }
}

// ---------------------------------------------------------------------------
// Laws of the state machine
// ---------------------------------------------------------------------------

/// Law: from the uninitialized state (no wallet yet), only the New Wallet
/// action, its completion, and a failure report act; every other event
/// leaves the state unchanged and dispatches nothing.
pub proof fn lemma_uninitialized_only_new_wallet(s: StateModel, m: MessageModel)
    requires
        !s.wallet_ready,
        !(m is NewWallet),
        !(m is WalletCreated),
        !(m is OperationFailed),
    ensures
        step(s, m).state == s,
        step(s, m).effect is Nothing,
{
}

/// Law: from Main, the only selections that move to another screen are
/// Receive and Pay; Receive leads exactly to the Receive screen and Pay
/// exactly to the Pay screen.
pub proof fn lemma_main_nav(s: StateModel, m: MessageModel)
    requires
        s.wallet_ready,
        s.screen is Main,
    ensures
        (step(s, m).state.screen is Receive) <==> (m is ReceiveEcash),
        (step(s, m).state.screen is Pay) <==> (m is Pay),
{
}

/// Law: the Invoice screen is never entered directly; the only transition
/// into it is the completion of a mint-quote request.
pub proof fn lemma_invoice_entry(s: StateModel, m: MessageModel)
    requires
        !(s.screen is Invoice),
    ensures
        (step(s, m).state.screen is Invoice) ==> (m is MintQuote),
{
}

/// Law: the Token screen is never entered directly; the only transition
/// into it is the completion of a send.
pub proof fn lemma_token_entry(s: StateModel, m: MessageModel)
    requires
        !(s.screen is Token),
    ensures
        (step(s, m).state.screen is Token) ==> (m is TokenCreated),
{
}

/// The transient fields are all cleared: pasted token, pasted invoice,
/// token string, QR code, both amount fields, and the error text.
pub open spec fn transients_clear(s: StateModel) -> bool {
    &&& s.data == Seq::<char>::empty()
    &&& s.pay_invoice == Seq::<char>::empty()
    &&& s.token == Seq::<char>::empty()
    &&& !s.qr_present
    &&& s.receive_amount == 0
    &&& s.send_amount == 0
    &&& s.error == Seq::<char>::empty()
}

/// Law: going Home always lands on Main with every transient field cleared,
/// whatever the prior state, and going Home again changes nothing more: the
/// transition is idempotent.
pub proof fn lemma_home_idempotent(s: StateModel)
    requires
        s.wallet_ready,
    ensures
        step(s, MessageModel::Home).state.screen is Main,
        transients_clear(step(s, MessageModel::Home).state),
        step(step(s, MessageModel::Home).state, MessageModel::Home) == step(s, MessageModel::Home),
{
    assert(step(step(s, MessageModel::Home).state, MessageModel::Home) =~= step(
        s,
        MessageModel::Home,
    ));
}

/// Invariant: a screen other than Main is shown only once a wallet exists,
/// and a wallet, once created, is never lost.
pub open spec fn state_inv(s: StateModel) -> bool {
    !s.wallet_ready ==> s.screen is Main
}

/// Law: the invariant holds initially.
pub proof fn lemma_init_inv()
    ensures
        state_inv(init_state()),
{
}

/// Law: every transition preserves the invariant, and never takes the
/// wallet away.
pub proof fn lemma_step_preserves_inv(s: StateModel, m: MessageModel)
    requires
        state_inv(s),
    ensures
        state_inv(step(s, m).state),
        s.wallet_ready ==> step(s, m).state.wallet_ready,
{
}

/// The state after a whole sequence of messages has been applied in order.
pub open spec fn run(s: StateModel, ms: Seq<MessageModel>) -> StateModel
    decreases ms.len(),
{
    if ms.len() == 0 {
        s
    } else {
        run(step(s, ms[0]).state, ms.drop_first())
    }
}

/// Law: every state the machine can reach from the initial one satisfies
/// the invariant — whatever messages arrive, in whatever order, a screen
/// other than Main is only ever shown with a wallet at hand.
pub proof fn lemma_reachable_states_satisfy_inv(ms: Seq<MessageModel>)
    ensures
        state_inv(run(init_state(), ms)),
{
    lemma_init_inv();
    lemma_run_preserves_inv(init_state(), ms);
}

/// Law: the invariant carries over any run of messages.
pub proof fn lemma_run_preserves_inv(s: StateModel, ms: Seq<MessageModel>)
    requires
        state_inv(s),
    ensures
        state_inv(run(s, ms)),
    decreases ms.len(),
{
    if ms.len() > 0 {
        lemma_step_preserves_inv(s, ms[0]);
        lemma_run_preserves_inv(step(s, ms[0]).state, ms.drop_first());
    }
}

} // verus!
