//! Reference data as the bootstrap files list it.

use crate::text::opt_text;
use vstd::prelude::*;

verus! {

/// One item of the reference data with its localized texts.
#[derive(Debug)]
pub struct Localization {
    pub localized_names: Option<LocalizedName>,
    pub localized_descriptions: Option<LocalizedDescription>,
    pub item: String,
    pub id: String,
}

/// The name of an item in each language that has one.
#[derive(Debug)]
pub struct LocalizedName {
    pub en_us: Option<String>,
    pub de_de: Option<String>,
    pub fr_fr: Option<String>,
    pub ru_ru: Option<String>,
    pub pl_pl: Option<String>,
    pub es_es: Option<String>,
    pub pt_br: Option<String>,
    pub it_it: Option<String>,
    pub zh_cn: Option<String>,
    pub ko_kr: Option<String>,
    pub ja_jp: Option<String>,
    pub zh_tw: Option<String>,
    pub id_id: Option<String>,
    pub tr_tr: Option<String>,
    pub ar_sa: Option<String>,
}

/// The description of an item in each language that has one.
#[derive(Debug)]
pub struct LocalizedDescription {
    pub en_us: Option<String>,
    pub de_de: Option<String>,
    pub fr_fr: Option<String>,
    pub ru_ru: Option<String>,
    pub pl_pl: Option<String>,
    pub es_es: Option<String>,
    pub pt_br: Option<String>,
    pub it_it: Option<String>,
    pub zh_cn: Option<String>,
    pub ko_kr: Option<String>,
    pub ja_jp: Option<String>,
    pub zh_tw: Option<String>,
    pub id_id: Option<String>,
    pub tr_tr: Option<String>,
    pub ar_sa: Option<String>,
}

/// One location of the reference data.
#[derive(Debug)]
pub struct Location {
    pub id: String,
    pub name: String,
}

impl LocalizedName {
    /// The texts, one per language in the order of the fields.
    pub open spec fn texts(&self) -> Seq<Option<Seq<char>>> {
        seq![
            opt_text(self.en_us),
            opt_text(self.de_de),
            opt_text(self.fr_fr),
            opt_text(self.ru_ru),
            opt_text(self.pl_pl),
            opt_text(self.es_es),
            opt_text(self.pt_br),
            opt_text(self.it_it),
            opt_text(self.zh_cn),
            opt_text(self.ko_kr),
            opt_text(self.ja_jp),
            opt_text(self.zh_tw),
            opt_text(self.id_id),
            opt_text(self.tr_tr),
            opt_text(self.ar_sa),
        ]
    }
}

impl LocalizedDescription {
    /// The texts, one per language in the order of the fields.
    pub open spec fn texts(&self) -> Seq<Option<Seq<char>>> {
        seq![
            opt_text(self.en_us),
            opt_text(self.de_de),
            opt_text(self.fr_fr),
            opt_text(self.ru_ru),
            opt_text(self.pl_pl),
            opt_text(self.es_es),
            opt_text(self.pt_br),
            opt_text(self.it_it),
            opt_text(self.zh_cn),
            opt_text(self.ko_kr),
            opt_text(self.ja_jp),
            opt_text(self.zh_tw),
            opt_text(self.id_id),
            opt_text(self.tr_tr),
            opt_text(self.ar_sa),
        ]
    }
}

} // verus!
