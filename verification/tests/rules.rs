use papitas::coin::{Coin, CoinAction, CoinState};
use papitas::dirt::{Dirt, MarkerAction};
use papitas::game::{pick_spawn_points, Game};
use papitas::global_state::{Buff, GlobalState, Power};
use papitas::hud::Hud;
use papitas::joystick::{is_nintendo, is_psx, Joytype};
use papitas::merchant::{Merchant, ShopFocus};
use papitas::menus::{Paused, Sign};
use papitas::papita::{Papita, PapitaAction};
use papitas::persistence::{Data, PersistentState};
use papitas::player::{HurtOutcome, Player, PlayerState};
use papitas::slime::{wander_spot_due, HitTint, Slime, SlimeHit, SlimeKind, SlimeTarget};
use papitas::text::{contains_str, str_eq, to_lowercase};
use papitas::title::{ControlPicture, MenuAnimation, MenuButton, Showing, Title};

const SECOND: u128 = 1_000_000_000;
const MILLI: u128 = 1_000_000;

#[test]
fn text_equality_and_search() {
    assert!(str_eq("Hitbox", "Hitbox"));
    assert!(!str_eq("Hitbox", "HitboxEnemy"));
    assert!(!str_eq("abc", "abd"));
    assert!(contains_str("wireless dualshock 4", "dualshock"));
    assert!(contains_str("sony", "sony"));
    assert!(contains_str("anything", ""));
    assert!(!contains_str("son", "sony"));
    assert!(!contains_str("xbox 360 controller", "sony"));
    assert_eq!(to_lowercase("Sony PS4"), "sony ps4");
}

#[test]
fn joystick_names_pick_layouts() {
    assert_eq!(Joytype::from_lowercase_name(""), Joytype::Keyboard);
    assert_eq!(Joytype::from_lowercase_name("ps4 controller"), Joytype::Psx);
    assert_eq!(Joytype::from_lowercase_name("ps5_controller"), Joytype::Psx);
    assert_eq!(Joytype::from_lowercase_name("wireless dualshock"), Joytype::Psx);
    assert_eq!(Joytype::from_lowercase_name("nintendo switch pro controller"), Joytype::Nintendo);
    assert_eq!(Joytype::from_lowercase_name("pro controller"), Joytype::Nintendo);
    assert_eq!(Joytype::from_lowercase_name("xbox 360 controller"), Joytype::Xbox);
    // A name that is both: the PlayStation test comes first.
    assert_eq!(Joytype::from_lowercase_name("sony nintendo"), Joytype::Psx);
    assert!(is_psx("ps4 controller"));
    assert!(!is_psx("PS4 Controller"));
    assert!(is_nintendo("nintendo switch"));
    assert!(!is_nintendo("xbox"));
}

#[test]
fn joystick_names_are_lowercased_first() {
    // Only found once lowercased: the lowercase call must do its work.
    assert_eq!(Joytype::from_joy_name("Sony PLAYSTATION(R)3 Controller"), Joytype::Psx);
    assert_eq!(Joytype::from_joy_name("Nintendo Switch Pro Controller"), Joytype::Nintendo);
    assert_eq!(Joytype::from_joy_name("PS4 Controller"), Joytype::Psx);
    assert_eq!(Joytype::from_joy_name("Xbox Series Controller"), Joytype::Xbox);
    assert_eq!(Joytype::from_joy_name(""), Joytype::Keyboard);
}

#[test]
fn keyboard_is_only_keyboard() {
    assert!(Joytype::Keyboard.is_keyboard());
    assert!(!Joytype::Xbox.is_keyboard());
    assert!(!Joytype::Psx.is_keyboard());
    assert!(!Joytype::Nintendo.is_keyboard());
}

fn fresh() -> GlobalState {
    GlobalState::new()
}

#[test]
fn fresh_state_and_reset() {
    let mut s = fresh();
    assert_eq!((s.player_life, s.coins, s.seeds, s.score), (6, 0, 1, 0));
    assert!(s.collectable_buff.is_none() && s.power.is_none() && s.last_power.is_none());
    assert!(s.last_collectable.is_some());
    s.update_coins(12);
    s.update_score(7);
    s.set_power(Power::Speed);
    s.reset();
    assert_eq!((s.player_life, s.coins, s.seeds, s.score), (6, 0, 1, 0));
    assert!(s.power.is_none() && s.last_power.is_none());
}

#[test]
fn counters_add_and_return_totals() {
    let mut s = fresh();
    assert_eq!(s.update_coins(5), 5);
    assert_eq!(s.update_coins(-2), 3);
    assert_eq!(s.update_seeds(2), 3);
    assert_eq!(s.update_score(10), 10);
    assert_eq!(s.update_life(-1), 5);
    assert_eq!(s.update_life(-20), -15);
}

#[test]
fn power_expires_after_ten_seconds() {
    let mut s = fresh();
    s.set_power(Power::Invisibility);
    assert_eq!(s.power, Some(Power::Invisibility));
    assert!(!s.expire_power_after(9 * SECOND + 999 * MILLI));
    assert_eq!(s.power, Some(Power::Invisibility));
    assert!(s.expire_power_after(10 * SECOND));
    assert!(s.power.is_none() && s.last_power.is_none());
    // A fresh power has not run out yet.
    s.set_power(Power::Attack);
    assert!(!s.process());
    assert_eq!(s.power, Some(Power::Attack));
    // Without a power nothing changes.
    let mut t = fresh();
    assert!(!t.process());
}

#[test]
fn buff_drops_only_after_cooldown_and_on_luck() {
    let mut s = fresh();
    assert_eq!(s.offer_buff(9 * SECOND, true), None);
    assert_eq!(s.offer_buff(10 * SECOND, false), None);
    assert!(s.collectable_buff.is_none());
    assert_eq!(s.offer_buff(10 * SECOND, true), Some(Buff::Heart));
    assert_eq!(s.collectable_buff, Some(Buff::Heart));
    // While one waits no other drops.
    assert_eq!(s.offer_buff(60 * SECOND, true), None);
    assert_eq!(s.get_buff(), None);
    // A fresh state is within its cooldown.
    let mut t = fresh();
    assert_eq!(t.get_buff(), None);
    assert!(t.collectable_buff.is_none());
}

#[test]
fn collecting_the_heart_heals_half_a_heart_up_to_full() {
    let mut s = fresh();
    assert!(!s.collect_buff());
    s.collectable_buff = Some(Buff::Heart);
    s.update_life(-3);
    assert!(s.collect_buff());
    assert_eq!(s.player_life, 4);
    assert!(s.collectable_buff.is_none());
    s.collectable_buff = Some(Buff::Heart);
    s.update_life(2);
    assert!(s.collect_buff());
    assert_eq!(s.player_life, 6);
    s.collectable_buff = Some(Buff::Heart);
    assert!(s.collect_buff());
    assert_eq!(s.player_life, 6);
}

#[test]
fn power_icons() {
    assert_eq!(Power::Attack.texture_path(), "res://assets/ui/Espada.png");
    assert_eq!(Power::Speed.texture_path(), "res://assets/ui/Zapatito.png");
    assert_eq!(Power::Defence.texture_path(), "res://assets/ui/Escudo.png");
    assert_eq!(Power::Invisibility.texture_path(), "res://assets/ui/Invisible.png");
    for i in 0..4 {
        assert_eq!(Power::from_index(i).index(), i);
    }
}

#[test]
fn coin_rests_blinks_and_vanishes() {
    assert_eq!(Coin::floor_action(0), CoinAction::Rest);
    assert_eq!(Coin::floor_action(2999), CoinAction::Rest);
    assert_eq!(Coin::floor_action(3000), CoinAction::Blink { millis: 3000 });
    assert_eq!(Coin::floor_action(5999), CoinAction::Blink { millis: 5999 });
    assert_eq!(Coin::floor_action(6000), CoinAction::Vanish);
    assert_eq!(Coin::floor_action(7000), CoinAction::Vanish);
}

#[test]
fn coin_pickup_and_flight() {
    let mut c = Coin::new();
    assert!(CoinState::Floor.on_floor());
    assert!(!CoinState::Flying.on_floor());
    // Too early.
    assert!(!c.enter_after(9 * MILLI, "PlayerHurtbox"));
    // Not the player.
    assert!(!c.enter_after(20 * MILLI, "Hitbox"));
    assert_eq!(c.state, CoinState::Floor);
    assert!(c.enter_after(20 * MILLI, "PlayerHurtbox"));
    assert_eq!(c.state, CoinState::Collected);
    // Already taken.
    assert!(!c.enter_after(30 * MILLI, "PlayerHurtbox"));
    assert_eq!(c.process(), CoinAction::LiftToHud);
    assert_eq!(c.state, CoinState::Flying);
    assert_eq!(c.process(), CoinAction::FlyToHud);
    // A fresh coin rests.
    let mut d = Coin::new();
    assert_eq!(d.process(), CoinAction::Rest);
}

#[test]
fn dirt_planting_with_keyboard() {
    let mut s = fresh();
    let mut d = Dirt::new();
    assert_eq!(d.process_after(&mut s, 499 * MILLI, true, true, true, true), MarkerAction::Wait);
    assert_eq!(d.handle_keyboard(&mut s, false, true, true), MarkerAction::Hide);
    assert_eq!(d.handle_keyboard(&mut s, true, false, true), MarkerAction::Hide);
    assert_eq!(d.handle_keyboard(&mut s, true, true, false), MarkerAction::Show);
    assert_eq!(d.process_after(&mut s, 500 * MILLI, true, true, true, true), MarkerAction::Plant);
    assert!(d.planted);
    assert_eq!(s.seeds, 0);
    // Planted: no more highlight.
    assert_eq!(d.handle_keyboard(&mut s, true, true, true), MarkerAction::Hide);
    // No seed left: the highlight shows but nothing is planted.
    let mut e = Dirt::new();
    assert_eq!(e.handle_keyboard(&mut s, true, true, true), MarkerAction::Show);
    assert!(!e.planted);
    assert_eq!(s.seeds, 0);
    // A fresh patch waits.
    let mut f = Dirt::new();
    assert_eq!(f.process(&mut s, true, true, true, true), MarkerAction::Wait);
}

#[test]
fn dirt_planting_with_joystick() {
    let mut s = fresh();
    let mut d = Dirt::new();
    assert_eq!(d.handle_joystick(&mut s, true), MarkerAction::Hide);
    d.on_area_entered("Hitbox");
    assert!(!d.player_inside);
    d.on_area_entered("PlayerPointer");
    assert!(d.player_inside);
    assert_eq!(d.handle_joystick(&mut s, false), MarkerAction::Show);
    assert_eq!(d.process_after(&mut s, SECOND, false, false, false, true), MarkerAction::Plant);
    assert_eq!(s.seeds, 0);
    d.on_area_exited("PlayerPointer");
    assert!(!d.player_inside);
}

#[test]
fn consuming_seeds() {
    let mut s = fresh();
    let d = Dirt::new();
    assert!(d.consume_seed(&mut s));
    assert_eq!(s.seeds, 0);
    assert!(!d.consume_seed(&mut s));
    assert_eq!(s.seeds, 0);
}

#[test]
fn papita_takes_three_hits() {
    let mut p = Papita::new();
    assert_eq!(p.life, 3);
    assert!(!p.on_hurtbox_entered("Hitbox"));
    assert_eq!(p.life, 3);
    assert!(!p.on_hurtbox_entered("HitboxEnemy"));
    assert_eq!(p.life, 2);
    // Within the cooldown the hit is ignored.
    assert!(!p.on_hurtbox_entered("HitboxEnemy"));
    assert_eq!(p.life, 2);
    assert!(p.last_hit.is_some());
    p.cool_down_after(SECOND);
    assert!(p.last_hit.is_none());
    assert!(!p.take_hit());
    p.cool_down_after(SECOND / 2);
    assert!(p.last_hit.is_some());
    p.last_hit = None;
    assert!(p.take_hit());
    assert_eq!(p.life, 0);
}

#[test]
fn papita_highlight() {
    let p = Papita::new();
    assert_eq!(p.process(false, true, true), PapitaAction::Hide);
    assert_eq!(p.process(true, false, true), PapitaAction::Hide);
    assert_eq!(p.process(true, true, false), PapitaAction::Show);
    assert_eq!(p.process(true, true, true), PapitaAction::Unplant);
}

#[test]
fn player_hit_is_fatal_and_cooldown() {
    let mut s = fresh();
    let mut p = Player::new();
    assert_eq!(p.on_hurtbox_entered(&mut s, "Hitbox"), HurtOutcome::Ignored);
    assert_eq!(s.player_life, 6);
    assert_eq!(p.on_hurtbox_entered(&mut s, "HitboxEnemy"), HurtOutcome::Died);
    assert_eq!(s.player_life, -14);
    assert_eq!(p.on_hurtbox_entered(&mut s, "HitboxEnemy"), HurtOutcome::Ignored);
    assert!(p.handle_hit_cooldown());
    p.cool_down_after(SECOND);
    assert!(!p.handle_hit_cooldown());
    // With a lot of life a hit only hurts.
    let mut t = fresh();
    t.update_life(30);
    let mut q = Player::new();
    assert_eq!(q.on_hurtbox_entered(&mut t, "HitboxEnemy"), HurtOutcome::Hurt);
    assert_eq!(t.player_life, 16);
}

#[test]
fn player_attack_state() {
    let mut p = Player::new();
    assert_eq!(p.state, PlayerState::Move);
    p.move_state(false);
    assert_eq!(p.state, PlayerState::Move);
    p.move_state(true);
    assert_eq!(p.state, PlayerState::Attack);
    p.on_attack_finish();
    assert_eq!(p.state, PlayerState::Move);
}

#[test]
fn slime_kinds() {
    assert_eq!(SlimeKind::Orange.stats(), (20, 2, 50));
    assert_eq!(SlimeKind::Green.stats(), (30, 1, 50));
    assert_eq!(SlimeKind::Blue.stats(), (20, 1, 75));
    assert_eq!(SlimeKind::Blue.texture_path(), "res://assets/enemies/slime-blue.png");
    assert_eq!(SlimeKind::Orange.name(), "orange");
    let s = Slime::new();
    assert_eq!((s.life, s.strength, s.acceleration), s.kind.stats());
}

#[test]
fn slime_targets() {
    let mut s = Slime::of_kind(SlimeKind::Green);
    assert_eq!(s.get_target_vector(true, true, true, 3), SlimeTarget::Player);
    assert_eq!(s.get_target_vector(true, true, false, 0), SlimeTarget::Player);
    assert_eq!(s.get_target_vector(false, true, false, 0), SlimeTarget::Wander);
    assert!(s.target.is_none());
    match s.get_target_vector(false, true, true, 3) {
        SlimeTarget::Papita(i) => {
            assert!((0..3).contains(&i));
            assert_eq!(s.target, Some(i));
            // The same potato is chased again while it exists.
            assert_eq!(s.get_target_vector(true, false, false, 3), SlimeTarget::Papita(i));
        }
        other => panic!("expected a potato, got {:?}", other),
    }
    s.target = Some(5);
    assert_eq!(s.settle_target(Some(1), 2), SlimeTarget::Papita(1));
    assert_eq!(s.target, Some(1));
    assert_eq!(s.settle_target(None, 0), SlimeTarget::Wander);
    assert_eq!(s.target, None);
    assert_eq!(s.get_random_target_id(0), None);
}

#[test]
fn slime_hits_and_death() {
    let mut s = Slime::of_kind(SlimeKind::Orange);
    assert_eq!(s.on_hurtbox_area_entered("HitboxEnemy", 1), SlimeHit::Ignored);
    assert_eq!(s.on_hurtbox_area_entered("Hitbox", 1), SlimeHit::Hit);
    assert_eq!(s.life, 10);
    assert_eq!(s.on_hurtbox_area_entered("Hitbox", 1), SlimeHit::Ignored);
    assert_eq!(s.flash_after(100 * MILLI), HitTint::Flash { millis: 100 });
    assert_eq!(s.flash_after(250 * MILLI), HitTint::Unchanged);
    assert!(s.last_hit.is_none());
    assert_eq!(s.handle_hit_cooldown(), HitTint::Solid);
    assert_eq!(s.on_hurtbox_area_entered("Hitbox", 1), SlimeHit::Killed);
    assert!(s.dying.is_some());
    assert_eq!(s.handle_hit_cooldown(), HitTint::Solid);
    assert_eq!(s.on_hurtbox_area_entered("Hitbox", 1), SlimeHit::Ignored);
    assert!(!s.is_dead());
    assert!(!Slime::dying_over(2 * SECOND));
    assert!(Slime::dying_over(2 * SECOND + 1));
}

#[test]
fn slime_sight_and_turning() {
    let mut state = fresh();
    let mut s = Slime::of_kind(SlimeKind::Blue);
    assert!(s.is_player_visible(&state));
    assert!(!s.handle_is_confussed(&state));
    state.set_power(Power::Invisibility);
    assert!(!s.is_player_visible(&state));
    assert!(s.handle_is_confussed(&state));
    s.target = Some(0);
    assert!(!s.handle_is_confussed(&state));
    assert!(s.should_attack(true));
    assert!(!s.should_attack(false));
    assert!(s.turn_sprite());
    assert!(!s.turn_sprite());
}

#[test]
fn merchant_restock_changes_power() {
    assert_eq!(Merchant::other_power(Power::Attack, 0), Power::Speed);
    assert_eq!(Merchant::other_power(Power::Attack, 2), Power::Invisibility);
    assert_eq!(Merchant::other_power(Power::Defence, 0), Power::Attack);
    assert_eq!(Merchant::other_power(Power::Defence, 2), Power::Invisibility);
    assert_eq!(Merchant::other_power(Power::Invisibility, 2), Power::Defence);
    for _ in 0..50 {
        assert_ne!(Merchant::restock_power(Power::Speed), Power::Speed);
    }
    let mut m = Merchant::new();
    m.sold = true;
    let before = m.power;
    assert!(!m.restock_after(9 * SECOND, instant::Instant::now()));
    assert!(m.sold);
    let t = instant::Instant::now();
    assert!(m.restock_after(10 * SECOND, t));
    assert_eq!(m.last_power, t);
    assert!(!m.sold);
    assert_ne!(m.power, before);
    assert!(!m.process());
}

#[test]
fn merchant_sells_for_five_coins() {
    let mut s = fresh();
    let mut m = Merchant::new();
    assert!(!m.buy_seed(&mut s));
    assert!(!m.buy_power(&mut s));
    s.update_coins(12);
    assert!(m.buy_seed(&mut s));
    assert_eq!((s.coins, s.seeds), (7, 2));
    assert!(m.buy_power(&mut s));
    assert_eq!(s.coins, 2);
    assert_eq!(s.power, Some(m.power));
    assert!(m.sold);
    assert!(!m.buy_seed(&mut s));
    assert_eq!((s.coins, s.seeds), (2, 2));
}

#[test]
fn merchant_input() {
    let mut s = fresh();
    s.update_coins(20);
    let mut m = Merchant::new();
    m.on_sell_area_entered("PlayerPointer");
    assert!(!m.player_close);
    m.on_sell_area_entered("PlayerHurtbox");
    assert!(m.player_close);
    assert_eq!(m.handle_keyboard(&mut s, false, false, true), ShopFocus::Nothing);
    assert_eq!(m.handle_keyboard(&mut s, true, false, false), ShopFocus::Seeds);
    assert_eq!(s.coins, 20);
    assert_eq!(m.handle_keyboard(&mut s, true, true, true), ShopFocus::Seeds);
    assert_eq!((s.coins, s.seeds), (15, 2));
    assert_eq!(m.handle_keyboard(&mut s, false, true, true), ShopFocus::Power);
    assert_eq!(s.coins, 10);
    assert_eq!(m.handle_joystick(&mut s, false, false), ShopFocus::Nothing);
    assert_eq!(m.handle_joystick(&mut s, true, true), ShopFocus::Seeds);
    assert_eq!(m.handle_joystick(&mut s, false, true), ShopFocus::Power);
    assert_eq!(s.coins, 0);
    assert_eq!(m.handle_joystick(&mut s, true, false), ShopFocus::Nothing);
    m.on_sell_area_exited("PlayerHurtbox");
    assert!(!m.player_close);
}

#[test]
fn title_panels() {
    let mut t = Title::new(Joytype::Keyboard);
    assert_eq!((t.cerdos, t.almare, t.issy), (0, 86, 0));
    assert!(t.on_new_game());
    assert_eq!(t.on_about(true), None);
    assert_eq!(t.showing, Showing::Main);
    assert_eq!(t.on_about(false), Some(MenuAnimation::MoveAboutIn));
    assert_eq!(t.showing, Showing::About);
    assert!(!t.on_new_game());
    assert_eq!(t.on_howto(false), Some(MenuAnimation::MoveHowtoInFromAbout));
    assert_eq!(t.showing, Showing::Howto);
    assert_eq!(t.on_about(false), Some(MenuAnimation::MoveAboutInFromHowto));
    assert_eq!(t.on_about(false), Some(MenuAnimation::MoveAboutOut));
    assert_eq!(t.showing, Showing::Main);
    assert_eq!(t.on_howto(false), Some(MenuAnimation::MoveHowtoIn));
    assert_eq!(t.on_howto(false), Some(MenuAnimation::MoveHowtoOut));
    assert!(Showing::Main.is_main());
    assert_eq!(MenuAnimation::MoveHowtoInFromAbout.name(), "MoveHowtoInFromAbout");
}

#[test]
fn title_cursor_and_pictures() {
    let mut t = Title::new(Joytype::Keyboard);
    assert_eq!(t.handle_show_papita(true, false), None);
    assert_eq!(t.control_picture(), ControlPicture::Xbox);
    t.on_joy_connection_changed(Joytype::Psx);
    assert_eq!(t.handle_show_papita(true, true), Some(MenuButton::NewGame));
    assert_eq!(t.handle_show_papita(false, true), Some(MenuButton::HowToPlay));
    assert_eq!(t.handle_show_papita(false, false), Some(MenuButton::About));
    assert_eq!(t.control_picture(), ControlPicture::PlayStation);
    t.on_joy_connection_changed(Joytype::Nintendo);
    assert_eq!(t.control_picture(), ControlPicture::Nintendo);
    assert_eq!(t.handle_hover(true), 1);
    assert_eq!(t.handle_hover(false), 0);
}

#[test]
fn title_hidden_pictures() {
    let mut t = Title::new(Joytype::Xbox);
    for _ in 0..9 {
        assert!(!t.on_cerdos_button_up());
        assert!(!t.on_almare_button_up());
        assert!(!t.on_issy_button_up());
    }
    assert!(t.on_cerdos_button_up());
    assert!(t.on_almare_button_up());
    assert!(t.on_issy_button_up());
    assert_eq!((t.cerdos, t.almare, t.issy), (10, 96, 10));
}

#[test]
fn waves_spawn_distinct_points() {
    let mut g = Game::new();
    let first = g.on_timeout(5);
    assert_eq!(g.wave, 1);
    assert_eq!(first.len(), 1);
    g.on_timeout(5);
    let third = g.on_timeout(5);
    assert_eq!(g.wave, 3);
    assert_eq!(third.len(), 2);
    for _ in 0..20 {
        g.on_timeout(5);
    }
    let many = g.on_timeout(5);
    assert_eq!(many.len(), 5);
    let mut sorted = many.clone();
    sorted.sort();
    assert_eq!(sorted, vec![0, 1, 2, 3, 4]);
    assert!(g.on_timeout(0).is_empty());
}

#[test]
fn hud_view() {
    let mut s = fresh();
    let hud = Hud::new();
    assert_eq!(hud.update_life(&s), 50);
    s.update_life(-1);
    assert_eq!(hud.update_life(&s), 40);
    s.update_life(-5);
    assert_eq!(hud.update_life(&s), 2);
    s.update_life(-3);
    // -1.5 hearts: -18 + -1 * 4 + 2
    assert_eq!(hud.update_life(&s), -20);
    s.update_coins(42);
    s.update_score(-3);
    let view = hud.on_state_changed(&s);
    assert_eq!(view.coins, "42");
    assert_eq!(view.seeds, "1");
    assert_eq!(view.score, "-3");
    assert_eq!(view.heart_width, -20);
}

#[test]
fn best_score_only_grows() {
    let mut p = PersistentState::new();
    assert!(p.update_score(10));
    assert!(!p.update_score(5));
    assert!(!p.update_score(10));
    assert_eq!(p.score, 10);
    assert!(p.update_score(11));
    assert_eq!(p.score, 11);
    let mut d = Data::new();
    d.update_score(3);
    d.update_score(1);
    assert_eq!(d.score, 3);
}

#[test]
fn pause_and_signs() {
    let p = Paused::new();
    let f = p.process(true, false, false, false);
    assert!(f.grab_focus);
    assert_eq!(f.toggle_to, None);
    assert!(!p.process(true, true, false, false).grab_focus);
    assert!(!p.process(false, false, false, true).grab_focus);
    assert_eq!(p.process(false, false, false, true).toggle_to, Some(true));
    assert_eq!(p.process(true, false, true, true).toggle_to, Some(false));
    let s = Sign::new();
    assert!(s.on_sign_entered("PlayerHurtbox"));
    assert!(!s.on_sign_entered("HitboxEnemy"));
    assert!(s.on_sign_exited("PlayerHurtbox"));
}

#[test]
fn wandering_spot_refreshes_after_a_second() {
    assert!(!wander_spot_due(SECOND));
    assert!(!wander_spot_due(2 * SECOND - 1));
    assert!(wander_spot_due(2 * SECOND));
}

#[test]
fn sprite_turns_at_most_every_150_millis() {
    let mut s = Slime::of_kind(SlimeKind::Orange);
    assert!(s.turn_sprite_after(0, instant::Instant::now()));
    assert!(s.last_flip.is_some());
    assert!(!s.turn_sprite_after(149 * MILLI, instant::Instant::now()));
    assert!(s.turn_sprite_after(150 * MILLI, instant::Instant::now()));
}

#[test]
fn spawn_points_follow_the_draws() {
    assert_eq!(pick_spawn_points(5, &vec![0, 0, 0]), vec![0, 1, 2]);
    assert_eq!(pick_spawn_points(5, &vec![4, 3, 2, 1, 0]), vec![4, 3, 2, 1, 0]);
    assert_eq!(pick_spawn_points(5, &vec![2, 2, 2]), vec![2, 3, 4]);
    assert_eq!(pick_spawn_points(4, &vec![1, 0]), vec![1, 0]);
    assert!(pick_spawn_points(3, &vec![]).is_empty());
}

#[test]
fn the_shop_serves_only_a_close_player() {
    let mut s = fresh();
    s.update_coins(20);
    let mut m = Merchant::new();
    assert_eq!(m.serve(&mut s, true, true, false, true, false, false), None);
    assert_eq!(s.coins, 20);
    m.on_sell_area_entered("PlayerHurtbox");
    assert_eq!(m.serve(&mut s, true, true, false, true, false, false), Some(ShopFocus::Seeds));
    assert_eq!((s.coins, s.seeds), (15, 2));
    assert_eq!(m.serve(&mut s, false, false, false, false, false, true), Some(ShopFocus::Power));
    assert_eq!(s.coins, 10);
    assert_eq!(m.serve(&mut s, false, false, false, false, false, false), Some(ShopFocus::Nothing));
    assert_eq!(s.coins, 10);
}

#[test]
fn scores_reach_the_best_score() {
    let mut s = fresh();
    let mut best = PersistentState::new();
    assert_eq!(s.record_score(&mut best, 7), (7, true));
    assert_eq!(best.score, 7);
    let mut other = PersistentState { score: 20 };
    assert_eq!(s.record_score(&mut other, 3), (10, false));
    assert_eq!(other.score, 20);
    assert_eq!(s.score, 10);
}

#[test]
fn best_score_label() {
    assert_eq!(Title::best_score_text(42), "Best Score: 42");
    assert_eq!(Title::best_score_text(-1), "Best Score: -1");
}

#[test]
fn clocks_restart_at_the_given_instant() {
    let t = instant::Instant::now();
    let mut s = fresh();
    s.set_power_at(Power::Defence, t);
    assert_eq!(s.last_power, Some(t));
    s.collectable_buff = Some(Buff::Heart);
    assert!(s.collect_buff_at(t));
    assert_eq!(s.last_collectable, Some(t));
    let mut p = Papita::new();
    p.take_hit_at(t);
    assert_eq!(p.last_hit, Some(t));
    let mut q = Player::new();
    let mut st = fresh();
    assert_eq!(q.on_hurtbox_entered_at(&mut st, "HitboxEnemy", t), HurtOutcome::Died);
    assert_eq!(q.last_hit, Some(t));
    let mut sl = Slime::of_kind(SlimeKind::Blue);
    assert_eq!(sl.on_hurtbox_area_entered_at("Hitbox", 3, t), SlimeHit::Killed);
    assert_eq!((sl.last_hit, sl.dying), (Some(t), Some(t)));
}
