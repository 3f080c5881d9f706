//! Tests of the view state machine: reachability, field validation, the Home
//! transition, and the end-to-end screen flows.

use cashu_iced::render::{render, ScreenDesc};
use cashu_iced::state::{AppState, Effect, Message, Screen};

/// A state as it stands right after wallet creation and the first balance
/// report.
fn ready_state(balance: u64) -> AppState {
    let mut s = AppState::new();
    assert_eq!(s.update(Message::NewWallet), Effect::SpawnCreateWallet);
    assert_eq!(s.update(Message::WalletCreated), Effect::SpawnCheckBalance);
    assert_eq!(s.update(Message::Balance(balance)), Effect::Nothing);
    s
}

#[test]
fn initial_state_shows_init_screen() {
    let s = AppState::new();
    assert!(!s.wallet_ready);
    assert_eq!(s.screen, Screen::Main);
    assert_eq!(render(&s).screen, ScreenDesc::Init);
}

#[test]
fn uninitialized_ignores_everything_but_new_wallet() {
    let mut s = AppState::new();
    let before = s.clone();
    for msg in [
        Message::Pay,
        Message::ReceiveEcash,
        Message::Home,
        Message::Receive,
        Message::PayInvoice,
        Message::CreateInvoice,
        Message::CreateToken,
        Message::CopyInvoice,
        Message::CopyToken,
        Message::DataChanged("x".to_string()),
        Message::ReceiveDataChanged("5".to_string()),
        Message::SendDataChanged("5".to_string()),
        Message::PayBolt11Change("lnbc1".to_string()),
        Message::TokenCreated("t".to_string()),
        Message::MintQuote("r".to_string(), "q".to_string()),
        Message::Minted(1),
        Message::CheckBalance(1),
        Message::Balance(1),
    ] {
        assert_eq!(s.update(msg), Effect::Nothing);
        assert_eq!(s, before);
    }
}

#[test]
fn new_wallet_targets_default_mint() {
    let mut s = AppState::new();
    assert_eq!(s.update(Message::NewWallet), Effect::SpawnCreateWallet);
    assert_eq!(s.active_mint, "https://mint.thesimplekid.dev");
    assert!(!s.wallet_ready);
}

#[test]
fn scenario_new_wallet_then_zero_balance() {
    // New Wallet -> wallet created -> balance query returns 0 -> Main shows 0.
    let mut s = AppState::new();
    assert_eq!(s.update(Message::NewWallet), Effect::SpawnCreateWallet);
    assert_eq!(s.update(Message::WalletCreated), Effect::SpawnCheckBalance);
    assert_eq!(s.update(Message::Balance(0)), Effect::Nothing);
    assert_eq!(s.screen, Screen::Main);
    assert_eq!(s.balance, 0);
    assert_eq!(render(&s).screen, ScreenDesc::Main { balance: 0 });
}

#[test]
fn scenario_claim_token_increases_balance() {
    // On Receive, paste a token, claim it: the redeem task gets exactly the
    // pasted text, and on success the state is Main with the balance grown
    // by the token's face value.
    let mut s = ready_state(10);
    assert_eq!(s.update(Message::ReceiveEcash), Effect::Nothing);
    assert_eq!(s.screen, Screen::Receive);
    assert_eq!(s.update(Message::DataChanged("cashuAey...".to_string())), Effect::Nothing);
    let eff = s.update(Message::Receive);
    assert_eq!(eff, Effect::SpawnReceive { token: "cashuAey...".to_string() });
    assert_eq!(s.screen, Screen::Main);
    assert_eq!(s.data, "");
    // The redeem task reports 32 sats received; a fresh query follows.
    assert_eq!(s.update(Message::CheckBalance(32)), Effect::SpawnCheckBalance);
    assert_eq!(s.update(Message::Balance(42)), Effect::Nothing);
    assert_eq!(s.screen, Screen::Main);
    assert_eq!(s.balance, 42);
}

#[test]
fn scenario_create_token_shows_it() {
    // On Pay, enter 50 and create a token: the send task gets amount 50 and
    // its result is displayed on the Token screen.
    let mut s = ready_state(100);
    assert_eq!(s.update(Message::Pay), Effect::Nothing);
    assert_eq!(s.screen, Screen::Pay);
    assert_eq!(s.update(Message::SendDataChanged("50".to_string())), Effect::Nothing);
    assert_eq!(s.send_amount, 50);
    assert_eq!(s.update(Message::CreateToken), Effect::SpawnSend { amount: 50 });
    assert_eq!(s.update(Message::TokenCreated("cashuBtoken".to_string())), Effect::Nothing);
    assert_eq!(s.screen, Screen::Token);
    assert_eq!(s.token, "cashuBtoken");
    assert_eq!(render(&s).screen, ScreenDesc::Token { token: "cashuBtoken".to_string() });
}

#[test]
fn amount_field_keeps_prior_value_on_bad_input() {
    let mut s = ready_state(0);
    assert_eq!(s.update(Message::ReceiveDataChanged("120".to_string())), Effect::Nothing);
    assert_eq!(s.receive_amount, 120);
    assert_eq!(s.update(Message::ReceiveDataChanged("abc".to_string())), Effect::Nothing);
    assert_eq!(s.receive_amount, 120);
    assert_eq!(s.update(Message::SendDataChanged("7".to_string())), Effect::Nothing);
    assert_eq!(s.update(Message::SendDataChanged("seven".to_string())), Effect::Nothing);
    assert_eq!(s.send_amount, 7);
}

#[test]
fn home_clears_transients_and_is_idempotent() {
    let mut s = ready_state(9);
    s.update(Message::ReceiveEcash);
    s.update(Message::DataChanged("cashuA".to_string()));
    s.update(Message::ReceiveDataChanged("15".to_string()));
    s.update(Message::PayBolt11Change("lnbc1x".to_string()));
    s.update(Message::SendDataChanged("8".to_string()));
    s.update(Message::TokenCreated("tok".to_string()));

    assert_eq!(s.update(Message::Home), Effect::SpawnCheckBalance);
    assert_eq!(s.screen, Screen::Main);
    assert_eq!(s.data, "");
    assert_eq!(s.pay_invoice, "");
    assert_eq!(s.token, "");
    assert!(!s.qr_present);
    assert_eq!(s.receive_amount, 0);
    assert_eq!(s.send_amount, 0);

    let once = s.clone();
    assert_eq!(s.update(Message::Home), Effect::SpawnCheckBalance);
    assert_eq!(s, once);
}

#[test]
fn invoice_screen_only_via_mint_quote() {
    let mut s = ready_state(0);
    s.update(Message::ReceiveEcash);
    s.update(Message::ReceiveDataChanged("21".to_string()));
    assert_eq!(s.update(Message::CreateInvoice), Effect::SpawnMintQuote { amount: 21 });
    // Still on Receive until the quote comes back.
    assert_eq!(s.screen, Screen::Receive);
    let eff = s.update(Message::MintQuote("lnbc21...".to_string(), "quote-1".to_string()));
    assert_eq!(eff, Effect::SpawnMint { quote_id: "quote-1".to_string() });
    assert_eq!(s.screen, Screen::Invoice);
    assert_eq!(s.invoice, "lnbc21...");
    assert!(s.qr_present);
    assert_eq!(
        render(&s).screen,
        ScreenDesc::Invoice { invoice: "lnbc21...".to_string(), qr_present: true }
    );
    // The mint completion returns to Main and refreshes the balance.
    assert_eq!(s.update(Message::Minted(21)), Effect::SpawnCheckBalance);
    assert_eq!(s.screen, Screen::Main);
}

#[test]
fn pay_invoice_returns_to_main() {
    let mut s = ready_state(60);
    s.update(Message::Pay);
    s.update(Message::PayBolt11Change("lnbc50n1...".to_string()));
    let eff = s.update(Message::PayInvoice);
    assert_eq!(eff, Effect::SpawnPayInvoice { bolt11: "lnbc50n1...".to_string() });
    assert_eq!(s.screen, Screen::Main);
}

#[test]
fn copy_actions_do_not_change_state() {
    let mut s = ready_state(0);
    s.update(Message::ReceiveEcash);
    s.update(Message::ReceiveDataChanged("5".to_string()));
    s.update(Message::CreateInvoice);
    s.update(Message::MintQuote("lnbc5...".to_string(), "q5".to_string()));
    let before = s.clone();
    assert_eq!(
        s.update(Message::CopyInvoice),
        Effect::CopyToClipboard { text: "lnbc5...".to_string() }
    );
    assert_eq!(s, before);
    s.update(Message::Minted(5));
    s.update(Message::TokenCreated("cashuAtok".to_string()));
    let before = s.clone();
    assert_eq!(
        s.update(Message::CopyToken),
        Effect::CopyToClipboard { text: "cashuAtok".to_string() }
    );
    assert_eq!(s, before);
}

#[test]
fn render_pay_screen_shows_fields() {
    let mut s = ready_state(60);
    s.update(Message::Pay);
    s.update(Message::PayBolt11Change("lnbc1".to_string()));
    s.update(Message::SendDataChanged("3".to_string()));
    assert_eq!(
        render(&s).screen,
        ScreenDesc::Pay {
            balance: 60,
            pay_invoice: "lnbc1".to_string(),
            send_amount: 3,
        }
    );
}

#[test]
fn render_receive_screen_shows_fields() {
    let mut s = ready_state(0);
    s.update(Message::ReceiveEcash);
    s.update(Message::DataChanged("cashuA".to_string()));
    s.update(Message::ReceiveDataChanged("4".to_string()));
    assert_eq!(
        render(&s).screen,
        ScreenDesc::Receive { pasted_token: "cashuA".to_string(), receive_amount: 4 }
    );
}

#[test]
fn failure_surfaces_as_error_banner() {
    // A failed wallet creation surfaces even before a wallet exists.
    let mut s = AppState::new();
    assert_eq!(s.update(Message::NewWallet), Effect::SpawnCreateWallet);
    assert_eq!(
        s.update(Message::OperationFailed("could not open wallet database".to_string())),
        Effect::Nothing
    );
    let frame = render(&s);
    assert_eq!(frame.screen, ScreenDesc::Init);
    assert_eq!(frame.error, "could not open wallet database");
}

#[test]
fn home_clears_error_banner() {
    let mut s = ready_state(5);
    s.update(Message::OperationFailed("mint unreachable".to_string()));
    assert_eq!(render(&s).error, "mint unreachable");
    assert_eq!(s.update(Message::Home), Effect::SpawnCheckBalance);
    assert_eq!(render(&s).error, "");
}
