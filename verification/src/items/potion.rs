//! Potions: twelve kinds, each hidden behind a flask color until identified.

use vstd::prelude::*;
use vstd::string::*;

use crate::dice::roll_index;
use crate::items::DisplayColor;

pub mod potion;

verus! {

/// A potion.
#[derive(Clone, Copy, Debug, PartialEq, Eq, Structural)]
pub struct Potion {
    pub kind: PotionKind,
    /// Whether it was identified.
    pub identified: bool,
    /// Color of the flask (kept after identification).
    pub color: PotionColor,
}

/// The twelve kinds of potions.
#[derive(Clone, Copy, Debug, PartialEq, Eq, Structural)]
pub enum PotionKind {
    Healing,
    Experience,
    ToxicGas,
    ParalyticGas,
    LiquidFlame,
    Levitation,
    Invisibility,
    Purity,
    Frost,
    Strength,
    MindVision,
    Haste,
}

/// The twelve flask colors.
#[derive(Clone, Copy, Debug, PartialEq, Eq, Structural)]
pub enum PotionColor {
    Red,
    Blue,
    Green,
    Yellow,
    Orange,
    Purple,
    Silver,
    White,
    LightBlue,
    Pink,
    Violet,
    Turquoise,
}

pub open spec fn spec_kind_name(kind: PotionKind) -> Seq<char> {
    match kind {
        PotionKind::Healing => "治疗药水"@,
        PotionKind::Experience => "经验药水"@,
        PotionKind::ToxicGas => "毒气药水"@,
        PotionKind::ParalyticGas => "麻痹药水"@,
        PotionKind::LiquidFlame => "液态火焰药水"@,
        PotionKind::Levitation => "漂浮药水"@,
        PotionKind::Invisibility => "隐身药水"@,
        PotionKind::Purity => "净化药水"@,
        PotionKind::Frost => "霜冻药水"@,
        PotionKind::Strength => "力量药水"@,
        PotionKind::MindVision => "心灵视界药水"@,
        PotionKind::Haste => "急速药水"@,
    }
}

pub open spec fn spec_kind_effect(kind: PotionKind) -> Seq<char> {
    match kind {
        PotionKind::Healing => "恢复大量生命值"@,
        PotionKind::Experience => "立即获得经验值"@,
        PotionKind::ToxicGas => "产生一片有毒的云雾"@,
        PotionKind::ParalyticGas => "产生一片麻痹云雾"@,
        PotionKind::LiquidFlame => "产生一片火焰区域"@,
        PotionKind::Levitation => "允许你漂浮越过陷阱和障碍"@,
        PotionKind::Invisibility => "使你暂时隐形"@,
        PotionKind::Purity => "清除所有负面效果"@,
        PotionKind::Frost => "冻结水和敌人"@,
        PotionKind::Strength => "永久增加你的力量属性"@,
        PotionKind::MindVision => "暂时看到所有生物的位置"@,
        PotionKind::Haste => "暂时大幅提高移动速度"@,
    }
}

pub open spec fn spec_standard_color(kind: PotionKind) -> PotionColor {
    match kind {
        PotionKind::Healing => PotionColor::Red,
        PotionKind::Experience => PotionColor::Blue,
        PotionKind::ToxicGas => PotionColor::Green,
        PotionKind::ParalyticGas => PotionColor::Yellow,
        PotionKind::LiquidFlame => PotionColor::Orange,
        PotionKind::Levitation => PotionColor::Purple,
        PotionKind::Invisibility => PotionColor::Silver,
        PotionKind::Purity => PotionColor::White,
        PotionKind::Frost => PotionColor::LightBlue,
        PotionKind::Strength => PotionColor::Pink,
        PotionKind::MindVision => PotionColor::Violet,
        PotionKind::Haste => PotionColor::Turquoise,
    }
}

pub open spec fn spec_color_name(c: PotionColor) -> Seq<char> {
    match c {
        PotionColor::Red => "红色"@,
        PotionColor::Blue => "蓝色"@,
        PotionColor::Green => "绿色"@,
        PotionColor::Yellow => "黄色"@,
        PotionColor::Orange => "橙色"@,
        PotionColor::Purple => "紫色"@,
        PotionColor::Silver => "银色"@,
        PotionColor::White => "白色"@,
        PotionColor::LightBlue => "浅蓝"@,
        PotionColor::Pink => "粉色"@,
        PotionColor::Violet => "紫罗兰"@,
        PotionColor::Turquoise => "青绿色"@,
    }
}

pub open spec fn spec_tui_color(c: PotionColor) -> DisplayColor {
    match c {
        PotionColor::Red => DisplayColor::Red,
        PotionColor::Blue => DisplayColor::Blue,
        PotionColor::Green => DisplayColor::Green,
        PotionColor::Yellow => DisplayColor::Yellow,
        PotionColor::Orange => DisplayColor::Rgb(255, 165, 0),
        PotionColor::Purple => DisplayColor::Magenta,
        PotionColor::Silver => DisplayColor::Gray,
        PotionColor::White => DisplayColor::White,
        PotionColor::LightBlue => DisplayColor::LightBlue,
        PotionColor::Pink => DisplayColor::LightRed,
        PotionColor::Violet => DisplayColor::LightMagenta,
        PotionColor::Turquoise => DisplayColor::LightCyan,
    }
}

/// The flask color of a kind: the color at the kind's place in the
/// declaration order.
pub open spec fn spec_flask_color(kind: PotionKind) -> PotionColor {
    match kind {
        PotionKind::Healing => PotionColor::Red,
        PotionKind::Experience => PotionColor::Blue,
        PotionKind::ToxicGas => PotionColor::Green,
        PotionKind::ParalyticGas => PotionColor::Yellow,
        PotionKind::LiquidFlame => PotionColor::Orange,
        PotionKind::Levitation => PotionColor::Purple,
        PotionKind::Invisibility => PotionColor::Silver,
        PotionKind::Purity => PotionColor::White,
        PotionKind::Frost => PotionColor::LightBlue,
        PotionKind::Strength => PotionColor::Pink,
        PotionKind::MindVision => PotionColor::Violet,
        PotionKind::Haste => PotionColor::Turquoise,
    }
}

/// No two kinds of potion share a flask color.
pub proof fn lemma_flask_colors_distinct(a: PotionKind, b: PotionKind)
    requires
        a != b,
    ensures
        spec_flask_color(a) != spec_flask_color(b),
{
}

/// The kinds in declaration order.
pub open spec fn spec_kind_at(i: int) -> PotionKind {
    if i == 0 {
        PotionKind::Healing
    } else if i == 1 {
        PotionKind::Experience
    } else if i == 2 {
        PotionKind::ToxicGas
    } else if i == 3 {
        PotionKind::ParalyticGas
    } else if i == 4 {
        PotionKind::LiquidFlame
    } else if i == 5 {
        PotionKind::Levitation
    } else if i == 6 {
        PotionKind::Invisibility
    } else if i == 7 {
        PotionKind::Purity
    } else if i == 8 {
        PotionKind::Frost
    } else if i == 9 {
        PotionKind::Strength
    } else if i == 10 {
        PotionKind::MindVision
    } else {
        PotionKind::Haste
    }
}

pub open spec fn spec_potion_base_value(kind: PotionKind) -> nat {
    match kind {
        PotionKind::Healing => 300,
        PotionKind::Experience => 400,
        PotionKind::ToxicGas => 80,
        PotionKind::ParalyticGas => 80,
        PotionKind::LiquidFlame => 100,
        PotionKind::Levitation => 150,
        PotionKind::Invisibility => 250,
        PotionKind::Purity => 120,
        PotionKind::Frost => 150,
        PotionKind::Strength => 500,
        PotionKind::MindVision => 200,
        PotionKind::Haste => 250,
    }
}

/// The unidentified potion made of the position of its kind drawn, in that
/// kind's flask color.
pub open spec fn potion_from_roll(i: int) -> Potion {
    Potion { kind: spec_kind_at(i), identified: false, color: spec_flask_color(spec_kind_at(i)) }
}

impl Potion {
    pub open spec fn spec_name(self) -> Seq<char> {
        if self.identified {
            spec_kind_name(self.kind)
        } else {
            spec_color_name(self.color) + "药水"@
        }
    }

    /// The unidentified potion made of the position of its kind drawn, in
    /// that kind's flask color.
    pub fn from_roll(i: usize) -> (p: Self)
        ensures
            p == potion_from_roll(i as int),
    {
        let kind = kind_at(i);
        let color = PotionColor::assign_random_color(&kind);
        Potion { kind, identified: false, color }
    }

    /// A random unidentified potion: random kind, in that kind's flask
    /// color.
    pub fn new_random() -> (p: Self)
        ensures
            !p.identified,
            p.color == spec_flask_color(p.kind),
            exists|i: int| 0 <= i < 12 && p == #[trigger] potion_from_roll(i),
    {
        let i = roll_index(12);
        Self::from_roll(i)
    }

    /// An alchemy product: identified, in the kind's standard color.
    pub fn new_alchemy(kind: PotionKind) -> (p: Self)
        ensures
            p == (Potion { kind: kind, identified: true, color: spec_standard_color(kind) }),
    {
        let color = kind.standard_color();
        Potion { kind, identified: true, color }
    }

    /// Value: the kind's base value, halved when unidentified.
    pub fn value(&self) -> (v: usize)
        ensures
            v == if self.identified {
                spec_potion_base_value(self.kind)
            } else {
                spec_potion_base_value(self.kind) / 2
            },
    {
        let base_value: usize = match self.kind {
            PotionKind::Healing => 300,
            PotionKind::Experience => 400,
            PotionKind::ToxicGas => 80,
            PotionKind::ParalyticGas => 80,
            PotionKind::LiquidFlame => 100,
            PotionKind::Levitation => 150,
            PotionKind::Invisibility => 250,
            PotionKind::Purity => 120,
            PotionKind::Frost => 150,
            PotionKind::Strength => 500,
            PotionKind::MindVision => 200,
            PotionKind::Haste => 250,
        };
        if !self.identified {
            base_value / 2
        } else {
            base_value
        }
    }

    /// Display color of the flask.
    pub fn display_color(&self) -> (c: DisplayColor)
        ensures
            c == spec_tui_color(self.color),
    {
        self.color.to_tui_color()
    }

    /// Name: the kind once identified, otherwise the flask color.
    pub fn name(&self) -> (s: String)
        ensures
            s@ == self.spec_name(),
    {
        if self.identified {
            self.kind.name()
        } else {
            let mut s = String::from_str(self.color.name());
            s.append("药水");
            s
        }
    }

    /// Effect description.
    pub fn effect(&self) -> (s: String)
        ensures
            s@ == spec_kind_effect(self.kind),
    {
        self.kind.effect()
    }

    /// Identify the potion.
    pub fn identify(&mut self)
        ensures
            *final(self) == (Potion { identified: true, ..*old(self) }),
    {
        self.identified = true;
    }
}

/// The kind at a position of the declaration.
pub fn kind_at(i: usize) -> (k: PotionKind)
    ensures
        k == spec_kind_at(i as int),
{
    if i == 0 {
        PotionKind::Healing
    } else if i == 1 {
        PotionKind::Experience
    } else if i == 2 {
        PotionKind::ToxicGas
    } else if i == 3 {
        PotionKind::ParalyticGas
    } else if i == 4 {
        PotionKind::LiquidFlame
    } else if i == 5 {
        PotionKind::Levitation
    } else if i == 6 {
        PotionKind::Invisibility
    } else if i == 7 {
        PotionKind::Purity
    } else if i == 8 {
        PotionKind::Frost
    } else if i == 9 {
        PotionKind::Strength
    } else if i == 10 {
        PotionKind::MindVision
    } else {
        PotionKind::Haste
    }
}

impl PotionKind {
    /// Standard color (used for alchemy products).
    pub fn standard_color(&self) -> (c: PotionColor)
        ensures
            c == spec_standard_color(*self),
    {
        match self {
            PotionKind::Healing => PotionColor::Red,
            PotionKind::Experience => PotionColor::Blue,
            PotionKind::ToxicGas => PotionColor::Green,
            PotionKind::ParalyticGas => PotionColor::Yellow,
            PotionKind::LiquidFlame => PotionColor::Orange,
            PotionKind::Levitation => PotionColor::Purple,
            PotionKind::Invisibility => PotionColor::Silver,
            PotionKind::Purity => PotionColor::White,
            PotionKind::Frost => PotionColor::LightBlue,
            PotionKind::Strength => PotionColor::Pink,
            PotionKind::MindVision => PotionColor::Violet,
            PotionKind::Haste => PotionColor::Turquoise,
        }
    }

    /// Name of the potion kind.
    pub fn name(&self) -> (s: String)
        ensures
            s@ == spec_kind_name(*self),
    {
        match self {
            PotionKind::Healing => String::from_str("治疗药水"),
            PotionKind::Experience => String::from_str("经验药水"),
            PotionKind::ToxicGas => String::from_str("毒气药水"),
            PotionKind::ParalyticGas => String::from_str("麻痹药水"),
            PotionKind::LiquidFlame => String::from_str("液态火焰药水"),
            PotionKind::Levitation => String::from_str("漂浮药水"),
            PotionKind::Invisibility => String::from_str("隐身药水"),
            PotionKind::Purity => String::from_str("净化药水"),
            PotionKind::Frost => String::from_str("霜冻药水"),
            PotionKind::Strength => String::from_str("力量药水"),
            PotionKind::MindVision => String::from_str("心灵视界药水"),
            PotionKind::Haste => String::from_str("急速药水"),
        }
    }

    /// Effect of the potion kind.
    pub fn effect(&self) -> (s: String)
        ensures
            s@ == spec_kind_effect(*self),
    {
        match self {
            PotionKind::Healing => String::from_str("恢复大量生命值"),
            PotionKind::Experience => String::from_str("立即获得经验值"),
            PotionKind::ToxicGas => String::from_str("产生一片有毒的云雾"),
            PotionKind::ParalyticGas => String::from_str("产生一片麻痹云雾"),
            PotionKind::LiquidFlame => String::from_str("产生一片火焰区域"),
            PotionKind::Levitation => String::from_str("允许你漂浮越过陷阱和障碍"),
            PotionKind::Invisibility => String::from_str("使你暂时隐形"),
            PotionKind::Purity => String::from_str("清除所有负面效果"),
            PotionKind::Frost => String::from_str("冻结水和敌人"),
            PotionKind::Strength => String::from_str("永久增加你的力量属性"),
            PotionKind::MindVision => String::from_str("暂时看到所有生物的位置"),
            PotionKind::Haste => String::from_str("暂时大幅提高移动速度"),
        }
    }
}

impl PotionColor {
    /// The flask color of a kind: each kind has a color of its own, the
    /// kinds and the colors paired in declaration order, so no two kinds
    /// share a flask.
    pub fn assign_random_color(kind: &PotionKind) -> (c: Self)
        ensures
            c == spec_flask_color(*kind),
    {
        match kind {
            PotionKind::Healing => PotionColor::Red,
            PotionKind::Experience => PotionColor::Blue,
            PotionKind::ToxicGas => PotionColor::Green,
            PotionKind::ParalyticGas => PotionColor::Yellow,
            PotionKind::LiquidFlame => PotionColor::Orange,
            PotionKind::Levitation => PotionColor::Purple,
            PotionKind::Invisibility => PotionColor::Silver,
            PotionKind::Purity => PotionColor::White,
            PotionKind::Frost => PotionColor::LightBlue,
            PotionKind::Strength => PotionColor::Pink,
            PotionKind::MindVision => PotionColor::Violet,
            PotionKind::Haste => PotionColor::Turquoise,
        }
    }

    /// Terminal color.
    pub fn to_tui_color(&self) -> (c: DisplayColor)
        ensures
            c == spec_tui_color(*self),
    {
        match self {
            PotionColor::Red => DisplayColor::Red,
            PotionColor::Blue => DisplayColor::Blue,
            PotionColor::Green => DisplayColor::Green,
            PotionColor::Yellow => DisplayColor::Yellow,
            PotionColor::Orange => DisplayColor::Rgb(255, 165, 0),
            PotionColor::Purple => DisplayColor::Magenta,
            PotionColor::Silver => DisplayColor::Gray,
            PotionColor::White => DisplayColor::White,
            PotionColor::LightBlue => DisplayColor::LightBlue,
            PotionColor::Pink => DisplayColor::LightRed,
            PotionColor::Violet => DisplayColor::LightMagenta,
            PotionColor::Turquoise => DisplayColor::LightCyan,
        }
    }

    /// Color name.
    pub fn name(&self) -> (s: &'static str)
        ensures
            s@ == spec_color_name(*self),
    {
        match self {
            PotionColor::Red => "红色",
            PotionColor::Blue => "蓝色",
            PotionColor::Green => "绿色",
            PotionColor::Yellow => "黄色",
            PotionColor::Orange => "橙色",
            PotionColor::Purple => "紫色",
            PotionColor::Silver => "银色",
            PotionColor::White => "白色",
            PotionColor::LightBlue => "浅蓝",
            PotionColor::Pink => "粉色",
            PotionColor::Violet => "紫罗兰",
            PotionColor::Turquoise => "青绿色",
        }
    }
}

} // verus!
