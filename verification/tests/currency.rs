use character_sheet::currency::Coin;
use character_sheet::currency::Denomination;
use character_sheet::currency::Wealth;
use character_sheet::currency::WealthManagement;

// DnD OGL
// Standard Exchange Rates
// Coin      Abbr    CP   SP   EP    GP      PP
// Copper    (cp)     1 1/10 1/50 1/100 1/1,000
// Silver    (sp)    10    1  1/5  1/10   1/100
// Electrum  (ep)    50    5    1   1/2    1/20
// Gold      (gp)   100   10    2     1    1/10
// Platinum  (pp) 1,000  100   20    10       1
#[test]
fn verify_standard_exchange_rate_conversions() {
    let copper_amount: u64 = 100;
    let silver_amount: u64 = 100;
    let electrum_amount: u64 = 100;
    let gold_amount: u64 = 100;
    let platinum_amount: u64 = 100;

    let wealth = Wealth {
        copper: Coin::new(copper_amount, Denomination::Copper),
        silver: Coin::new(silver_amount, Denomination::Silver),
        electrum: Coin::new(electrum_amount, Denomination::Electrum),
        gold: Coin::new(gold_amount, Denomination::Gold),
        platinum: Coin::new(platinum_amount, Denomination::Platinum),
    };

    assert_eq!(
        wealth
            .copper
            .plus(wealth.silver)
            .plus(wealth.electrum)
            .plus(wealth.gold)
            .plus(wealth.platinum),
        Coin::new(
            copper_amount * 1
                + silver_amount * 10
                + electrum_amount * 50
                + gold_amount * 100
                + platinum_amount * 1000,
            Denomination::Copper
        )
    )
}

#[test]
fn construction_scales_into_base_units() {
    assert_eq!(Coin::new(7, Denomination::Copper).base_units(), 7);
    assert_eq!(Coin::new(7, Denomination::Silver).base_units(), 70);
    assert_eq!(Coin::new(7, Denomination::Electrum).base_units(), 350);
    assert_eq!(Coin::new(7, Denomination::Gold).base_units(), 700);
    assert_eq!(Coin::new(7, Denomination::Platinum).base_units(), 7000);
}

#[test]
fn display_conversion_divides_by_the_scale() {
    let hoard = Coin::new(111100, Denomination::Copper);
    assert_eq!(hoard.amount_in_denomination(Denomination::Copper), 111100);
    assert_eq!(hoard.amount_in_denomination(Denomination::Silver), 11110);
    assert_eq!(hoard.amount_in_denomination(Denomination::Electrum), 2222);
    assert_eq!(hoard.amount_in_denomination(Denomination::Gold), 1111);
    assert_eq!(hoard.amount_in_denomination(Denomination::Platinum), 111);
}

#[test]
fn subtraction_is_exact() {
    let gold = Coin::new(3, Denomination::Gold);
    let silver = Coin::new(5, Denomination::Silver);
    assert_eq!(gold.minus(silver).base_units(), 250);
}

#[test]
fn wealth_management_adds_and_removes_copper() {
    let mut wealth = Wealth {
        copper: Coin::new(100, Denomination::Copper),
        silver: Coin::zero(),
        electrum: Coin::zero(),
        gold: Coin::zero(),
        platinum: Coin::zero(),
    };
    wealth.add_copper(25);
    assert_eq!(wealth.copper.base_units(), 125);
    wealth.remove_copper(100);
    assert_eq!(wealth.copper.base_units(), 25);
    assert_eq!(wealth.gold.base_units(), 0);
}
