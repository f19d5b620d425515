//! Potions with alchemy provenance and gem-colored flasks.

use vstd::prelude::*;
use vstd::string::*;

use rand::random;

verus! {

/// A potion.
#[derive(Clone, Copy, Debug, PartialEq, Eq, Structural)]
pub struct Potion {
    pub kind: PotionKind,
    /// Whether it was identified.
    pub identified: bool,
    /// Whether it is an alchemy product.
    pub alchemy: bool,
}

/// The twelve kinds of potions.
#[derive(Clone, Copy, Debug, PartialEq, Eq, Structural)]
pub enum PotionKind {
    Healing,
    Experience,
    ToxicGas,
    ParalyticGas,
    LiquidFlame,
    Levitation,
    Invisibility,
    Purity,
    Frost,
    Strength,
    MindVision,
    Haste,
}

/// Flask colors.
#[derive(Clone, Copy, Debug, PartialEq, Eq, Structural)]
pub enum Color {
    Crimson,
    Azure,
    Jade,
    Amber,
    Ruby,
    Indigo,
    Silver,
    Ivory,
    Sapphire,
    Burgundy,
    Violet,
    Emerald,
}

pub open spec fn spec_kind_name(kind: PotionKind) -> Seq<char> {
    match kind {
        PotionKind::Healing => "治疗药水"@,
        PotionKind::Experience => "经验药水"@,
        PotionKind::ToxicGas => "毒气药水"@,
        PotionKind::ParalyticGas => "麻痹药水"@,
        PotionKind::LiquidFlame => "液态火焰药水"@,
        PotionKind::Levitation => "漂浮药水"@,
        PotionKind::Invisibility => "隐身药水"@,
        PotionKind::Purity => "净化药水"@,
        PotionKind::Frost => "霜冻药水"@,
        PotionKind::Strength => "力量药水"@,
        PotionKind::MindVision => "心灵视界药水"@,
        PotionKind::Haste => "急速药水"@,
    }
}

pub open spec fn spec_kind_effect(kind: PotionKind) -> Seq<char> {
    match kind {
        PotionKind::Healing => "恢复大量生命值"@,
        PotionKind::Experience => "立即获得经验值"@,
        PotionKind::ToxicGas => "产生一片有毒的云雾"@,
        PotionKind::ParalyticGas => "产生一片麻痹云雾"@,
        PotionKind::LiquidFlame => "产生一片火焰区域"@,
        PotionKind::Levitation => "允许你漂浮越过陷阱和障碍"@,
        PotionKind::Invisibility => "使你暂时隐形"@,
        PotionKind::Purity => "清除所有负面效果"@,
        PotionKind::Frost => "冻结水和敌人"@,
        PotionKind::Strength => "永久增加你的力量属性"@,
        PotionKind::MindVision => "暂时看到所有生物的位置"@,
        PotionKind::Haste => "暂时大幅提高移动速度"@,
    }
}

pub open spec fn spec_kind_color(kind: PotionKind) -> Color {
    match kind {
        PotionKind::Healing => Color::Crimson,
        PotionKind::Experience => Color::Azure,
        PotionKind::ToxicGas => Color::Jade,
        PotionKind::ParalyticGas => Color::Amber,
        PotionKind::LiquidFlame => Color::Ruby,
        PotionKind::Levitation => Color::Indigo,
        PotionKind::Invisibility => Color::Silver,
        PotionKind::Purity => Color::Ivory,
        PotionKind::Frost => Color::Sapphire,
        PotionKind::Strength => Color::Burgundy,
        PotionKind::MindVision => Color::Violet,
        PotionKind::Haste => Color::Emerald,
    }
}

pub open spec fn spec_color_name(c: Color) -> Seq<char> {
    match c {
        Color::Crimson => "深红"@,
        Color::Azure => "天蓝"@,
        Color::Jade => "翡翠"@,
        Color::Amber => "琥珀"@,
        Color::Ruby => "红宝石"@,
        Color::Indigo => "靛蓝"@,
        Color::Silver => "银色"@,
        Color::Ivory => "象牙"@,
        Color::Sapphire => "蓝宝石"@,
        Color::Burgundy => "酒红"@,
        Color::Violet => "紫罗兰"@,
        Color::Emerald => "祖母绿"@,
    }
}

/// A random byte from the thread-local generator (`rand::random::<u8>()`).
/// Nothing is stated of it: it is chance.
#[verifier::external_body]
pub(crate) fn random_byte() -> u8 {
    random::<u8>()
}

/// The kind at a position of the declaration.
pub open spec fn spec_potion_kind_at(i: int) -> PotionKind {
    if i == 0 {
        PotionKind::Healing
    } else if i == 1 {
        PotionKind::Experience
    } else if i == 2 {
        PotionKind::ToxicGas
    } else if i == 3 {
        PotionKind::ParalyticGas
    } else if i == 4 {
        PotionKind::LiquidFlame
    } else if i == 5 {
        PotionKind::Levitation
    } else if i == 6 {
        PotionKind::Invisibility
    } else if i == 7 {
        PotionKind::Purity
    } else if i == 8 {
        PotionKind::Frost
    } else if i == 9 {
        PotionKind::Strength
    } else if i == 10 {
        PotionKind::MindVision
    } else {
        PotionKind::Haste
    }
}

/// The unidentified potion made of a byte drawn: the byte modulo twelve
/// picks the kind.
pub open spec fn potion_from_byte(b: u8) -> Potion {
    Potion { kind: spec_potion_kind_at((b % 12) as int), identified: false, alchemy: false }
}

impl Potion {
    pub open spec fn spec_name(self) -> Seq<char> {
        if self.identified {
            spec_kind_name(self.kind)
        } else {
            spec_color_name(spec_kind_color(self.kind)) + "药水"@
        }
    }

    /// The unidentified potion made of a byte drawn: the byte modulo twelve
    /// picks the kind.
    pub fn from_byte(b: u8) -> (p: Self)
        ensures
            p == potion_from_byte(b),
    {
        let i = b % 12;
        let kind = if i == 0 {
            PotionKind::Healing
        } else if i == 1 {
            PotionKind::Experience
        } else if i == 2 {
            PotionKind::ToxicGas
        } else if i == 3 {
            PotionKind::ParalyticGas
        } else if i == 4 {
            PotionKind::LiquidFlame
        } else if i == 5 {
            PotionKind::Levitation
        } else if i == 6 {
            PotionKind::Invisibility
        } else if i == 7 {
            PotionKind::Purity
        } else if i == 8 {
            PotionKind::Frost
        } else if i == 9 {
            PotionKind::Strength
        } else if i == 10 {
            PotionKind::MindVision
        } else {
            PotionKind::Haste
        };
        Potion { kind, identified: false, alchemy: false }
    }

    /// A random unidentified potion: a random byte modulo twelve picks the kind.
    pub fn new_random() -> (p: Self)
        ensures
            !p.identified,
            !p.alchemy,
            exists|b: u8| p == #[trigger] potion_from_byte(b),
    {
        let b = random_byte();
        Self::from_byte(b)
    }

    /// An alchemy product, always identified.
    pub fn new_alchemy(kind: PotionKind) -> (p: Self)
        ensures
            p == (Potion { kind: kind, identified: true, alchemy: true }),
    {
        Potion { kind, identified: true, alchemy: true }
    }

    /// Flask color.
    pub fn color(&self) -> (c: Color)
        ensures
            c == spec_kind_color(self.kind),
    {
        self.kind.color()
    }

    /// Name: the kind once identified, otherwise the flask color.
    pub fn name(&self) -> (s: String)
        ensures
            s@ == self.spec_name(),
    {
        if self.identified {
            self.kind.name()
        } else {
            let mut s = String::from_str(self.color().name());
            s.append("药水");
            s
        }
    }

    /// Effect description.
    pub fn effect(&self) -> (s: String)
        ensures
            s@ == spec_kind_effect(self.kind),
    {
        self.kind.effect()
    }

    /// Identify the potion.
    pub fn identify(&mut self)
        ensures
            *final(self) == (Potion { identified: true, ..*old(self) }),
    {
        self.identified = true;
    }
}

impl PotionKind {
    /// Name of the potion kind.
    pub fn name(&self) -> (s: String)
        ensures
            s@ == spec_kind_name(*self),
    {
        match self {
            PotionKind::Healing => String::from_str("治疗药水"),
            PotionKind::Experience => String::from_str("经验药水"),
            PotionKind::ToxicGas => String::from_str("毒气药水"),
            PotionKind::ParalyticGas => String::from_str("麻痹药水"),
            PotionKind::LiquidFlame => String::from_str("液态火焰药水"),
            PotionKind::Levitation => String::from_str("漂浮药水"),
            PotionKind::Invisibility => String::from_str("隐身药水"),
            PotionKind::Purity => String::from_str("净化药水"),
            PotionKind::Frost => String::from_str("霜冻药水"),
            PotionKind::Strength => String::from_str("力量药水"),
            PotionKind::MindVision => String::from_str("心灵视界药水"),
            PotionKind::Haste => String::from_str("急速药水"),
        }
    }

    /// Effect of the potion kind.
    pub fn effect(&self) -> (s: String)
        ensures
            s@ == spec_kind_effect(*self),
    {
        match self {
            PotionKind::Healing => String::from_str("恢复大量生命值"),
            PotionKind::Experience => String::from_str("立即获得经验值"),
            PotionKind::ToxicGas => String::from_str("产生一片有毒的云雾"),
            PotionKind::ParalyticGas => String::from_str("产生一片麻痹云雾"),
            PotionKind::LiquidFlame => String::from_str("产生一片火焰区域"),
            PotionKind::Levitation => String::from_str("允许你漂浮越过陷阱和障碍"),
            PotionKind::Invisibility => String::from_str("使你暂时隐形"),
            PotionKind::Purity => String::from_str("清除所有负面效果"),
            PotionKind::Frost => String::from_str("冻结水和敌人"),
            PotionKind::Strength => String::from_str("永久增加你的力量属性"),
            PotionKind::MindVision => String::from_str("暂时看到所有生物的位置"),
            PotionKind::Haste => String::from_str("暂时大幅提高移动速度"),
        }
    }

    /// Flask color of the kind.
    pub fn color(&self) -> (c: Color)
        ensures
            c == spec_kind_color(*self),
    {
        match self {
            PotionKind::Healing => Color::Crimson,
            PotionKind::Experience => Color::Azure,
            PotionKind::ToxicGas => Color::Jade,
            PotionKind::ParalyticGas => Color::Amber,
            PotionKind::LiquidFlame => Color::Ruby,
            PotionKind::Levitation => Color::Indigo,
            PotionKind::Invisibility => Color::Silver,
            PotionKind::Purity => Color::Ivory,
            PotionKind::Frost => Color::Sapphire,
            PotionKind::Strength => Color::Burgundy,
            PotionKind::MindVision => Color::Violet,
            PotionKind::Haste => Color::Emerald,
        }
    }
}

impl Color {
    /// Color name.
    pub fn name(&self) -> (s: &'static str)
        ensures
            s@ == spec_color_name(*self),
    {
        match self {
            Color::Crimson => "深红",
            Color::Azure => "天蓝",
            Color::Jade => "翡翠",
            Color::Amber => "琥珀",
            Color::Ruby => "红宝石",
            Color::Indigo => "靛蓝",
            Color::Silver => "银色",
            Color::Ivory => "象牙",
            Color::Sapphire => "蓝宝石",
            Color::Burgundy => "酒红",
            Color::Violet => "紫罗兰",
            Color::Emerald => "祖母绿",
        }
    }
}

} // verus!
