//! The situational flags of a scoring request, orthogonal to the tile
//! shape: win method, riichi state, and the one-shot circumstance flags.

use vstd::prelude::*;

verus! {

/// Variations of declaring riichi.
#[derive(Debug, Clone, Copy, PartialEq, Eq, Structural)]
pub enum Riichi {
    /// Declared a ready closed hand.
    Riichi,
    /// Called riichi on the first turn.
    DoubleRiichi,
}

/// The round context: self-draw, riichi state, ippatsu, replacement
/// tile win, robbed kan, last draw, and first-uninterrupted-draw win.
/// Immutable once built.
#[derive(Debug)]
pub struct RoundContext {
    /// Winning off of a self-draw.
    pub tsumo: bool,
    /// Declared a ready closed hand, normal turn or first turn.
    pub riichi: Option<Riichi>,
    /// Winning on the next uninterrupted draw after declaring riichi.
    pub ippatsu: bool,
    /// Winning with the replacement tile after calling kan.
    pub rinshan: bool,
    /// Robbing a kan.
    pub chankan: bool,
    /// Winning on the last tile of the wall.
    pub haitei: bool,
    /// Winning on the first uninterrupted draw.
    pub tenhou: bool,
}

impl RoundContext {
    /// Create a new [`RoundContext`].
    pub fn new(
        tsumo: bool,
        riichi: Option<Riichi>,
        ippatsu: bool,
        rinshan: bool,
        chankan: bool,
        haitei: bool,
        tenhou: bool,
    ) -> (r: Self)
        ensures
            r.tsumo == tsumo,
            r.riichi == riichi,
            r.ippatsu == ippatsu,
            r.rinshan == rinshan,
            r.chankan == chankan,
            r.haitei == haitei,
            r.tenhou == tenhou,
    {
        RoundContext { tsumo, riichi, ippatsu, rinshan, chankan, haitei, tenhou }
    }

    /// Create a new `RoundContext` builder with every flag cleared.
    pub fn builder() -> (r: RoundContextBuilder)
        ensures
            r.tsumo == false,
            r.riichi is None,
            r.ippatsu == false,
            r.rinshan == false,
            r.chankan == false,
            r.haitei == false,
            r.tenhou == false,
    {
        RoundContextBuilder {
            tsumo: false,
            riichi: None,
            ippatsu: false,
            rinshan: false,
            chankan: false,
            haitei: false,
            tenhou: false,
        }
    }

    /// Get the tsumo state.
    pub fn tsumo(&self) -> (r: bool)
        ensures
            r == self.tsumo,
    {
        self.tsumo
    }

    /// Get the riichi status.
    pub fn riichi(&self) -> (r: &Option<Riichi>)
        ensures
            *r == self.riichi,
    {
        &self.riichi
    }

    /// Get the ippatsu state.
    pub fn ippatsu(&self) -> (r: bool)
        ensures
            r == self.ippatsu,
    {
        self.ippatsu
    }

    /// Get the rinshan kaihou status.
    pub fn rinshan(&self) -> (r: bool)
        ensures
            r == self.rinshan,
    {
        self.rinshan
    }

    /// Get the chankan status.
    pub fn chankan(&self) -> (r: bool)
        ensures
            r == self.chankan,
    {
        self.chankan
    }

    /// Get whether the win came on the last tile of the wall.
    pub fn haitei(&self) -> (r: bool)
        ensures
            r == self.haitei,
    {
        self.haitei
    }

    /// Did the win come on the first uninterrupted draw?
    pub fn tenhou(&self) -> (r: bool)
        ensures
            r == self.tenhou,
    {
        self.tenhou
    }
}

/// Builder to create a [`RoundContext`].
#[derive(Debug)]
pub struct RoundContextBuilder {
    /// Winning off of a self-draw.
    pub tsumo: bool,
    /// Declared a ready closed hand, normal turn or first turn.
    pub riichi: Option<Riichi>,
    /// Winning on the next uninterrupted draw after declaring riichi.
    pub ippatsu: bool,
    /// Winning with the replacement tile after calling kan.
    pub rinshan: bool,
    /// Robbing a kan.
    pub chankan: bool,
    /// Winning on the last tile of the wall.
    pub haitei: bool,
    /// Winning on the first uninterrupted draw.
    pub tenhou: bool,
}

impl RoundContextBuilder {
    /// Create a [`RoundContext`] from this builder struct.
    pub fn build(self) -> (r: RoundContext)
        ensures
            r.tsumo == self.tsumo,
            r.riichi == self.riichi,
            r.ippatsu == self.ippatsu,
            r.rinshan == self.rinshan,
            r.chankan == self.chankan,
            r.haitei == self.haitei,
            r.tenhou == self.tenhou,
    {
        RoundContext::new(
            self.tsumo,
            self.riichi,
            self.ippatsu,
            self.rinshan,
            self.chankan,
            self.haitei,
            self.tenhou,
        )
    }

    /// Set the `tsumo` value.
    pub fn tsumo(self, tsumo: bool) -> (r: Self)
        ensures
            r.tsumo == tsumo,
            r.riichi == self.riichi,
            r.ippatsu == self.ippatsu,
            r.rinshan == self.rinshan,
            r.chankan == self.chankan,
            r.haitei == self.haitei,
            r.tenhou == self.tenhou,
    {
        RoundContextBuilder { tsumo, ..self }
    }

    /// Set the `riichi` value.
    pub fn riichi(self, riichi: Option<Riichi>) -> (r: Self)
        ensures
            r.tsumo == self.tsumo,
            r.riichi == riichi,
            r.ippatsu == self.ippatsu,
            r.rinshan == self.rinshan,
            r.chankan == self.chankan,
            r.haitei == self.haitei,
            r.tenhou == self.tenhou,
    {
        RoundContextBuilder { riichi, ..self }
    }

    /// Set the `ippatsu` value.
    pub fn ippatsu(self, ippatsu: bool) -> (r: Self)
        ensures
            r.tsumo == self.tsumo,
            r.riichi == self.riichi,
            r.ippatsu == ippatsu,
            r.rinshan == self.rinshan,
            r.chankan == self.chankan,
            r.haitei == self.haitei,
            r.tenhou == self.tenhou,
    {
        RoundContextBuilder { ippatsu, ..self }
    }

    /// Set the `rinshan` value.
    pub fn rinshan(self, rinshan: bool) -> (r: Self)
        ensures
            r.tsumo == self.tsumo,
            r.riichi == self.riichi,
            r.ippatsu == self.ippatsu,
            r.rinshan == rinshan,
            r.chankan == self.chankan,
            r.haitei == self.haitei,
            r.tenhou == self.tenhou,
    {
        RoundContextBuilder { rinshan, ..self }
    }

    /// Set the `chankan` value.
    pub fn chankan(self, chankan: bool) -> (r: Self)
        ensures
            r.tsumo == self.tsumo,
            r.riichi == self.riichi,
            r.ippatsu == self.ippatsu,
            r.rinshan == self.rinshan,
            r.chankan == chankan,
            r.haitei == self.haitei,
            r.tenhou == self.tenhou,
    {
        RoundContextBuilder { chankan, ..self }
    }

    /// Set the `haitei` value.
    pub fn haitei(self, haitei: bool) -> (r: Self)
        ensures
            r.tsumo == self.tsumo,
            r.riichi == self.riichi,
            r.ippatsu == self.ippatsu,
            r.rinshan == self.rinshan,
            r.chankan == self.chankan,
            r.haitei == haitei,
            r.tenhou == self.tenhou,
    {
        RoundContextBuilder { haitei, ..self }
    }

    /// Set the `tenhou` value.
    pub fn tenhou(self, tenhou: bool) -> (r: Self)
        ensures
            r.tsumo == self.tsumo,
            r.riichi == self.riichi,
            r.ippatsu == self.ippatsu,
            r.rinshan == self.rinshan,
            r.chankan == self.chankan,
            r.haitei == self.haitei,
            r.tenhou == tenhou,
    {
        RoundContextBuilder { tenhou, ..self }
    }
}

} // verus!
