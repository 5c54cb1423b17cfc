//! The models that the mimo channel serves.

use vstd::prelude::*;

verus! {

/// The model that the official desktop client selects.
pub const MODEL_DEFAULT: &'static str = "xiaomi/mimo-pro";

/// A model as a model listing shows it.
#[derive(Debug, Clone)]
pub struct ModelInfo {
    pub id: String,
    pub object: String,
    pub owned_by: String,
    pub family: String,
}

/// A [`ModelInfo`] with its texts as sequences of characters.
pub struct ModelInfoView {
    pub id: Seq<char>,
    pub object: Seq<char>,
    pub owned_by: Seq<char>,
    pub family: Seq<char>,
}

impl View for ModelInfo {
    type V = ModelInfoView;

    open spec fn view(&self) -> ModelInfoView {
        ModelInfoView {
            id: self.id@,
            object: self.object@,
            owned_by: self.owned_by@,
            family: self.family@,
        }
    }
}

/// The entry for a model: every one is a `model` that `xiaomi` owns.
pub open spec fn listing(id: Seq<char>, family: Seq<char>) -> ModelInfoView {
    ModelInfoView { id, object: "model"@, owned_by: "xiaomi"@, family }
}

/// The models that the channel serves, in the order in which they are listed.
///
/// * `model` is passed through as it is: the upstream router finds the model
///   behind an alias.
/// * `mimo`, `mimo-omni` and `mimo-pro` are working short aliases.
/// * The short `mimo-v2.5*` ids are left out, because the channel refuses them
///   without a provider; their `xiaomi/`-qualified forms work.
pub open spec fn catalog() -> Seq<ModelInfoView> {
    seq![
        // Models that the official client selects.
        listing(
            "xiaomi/mimo"@,
            "multimodal (text+vision+tools+thinking, 1M ctx, 128K out) [upstream: mimo]"@,
        ),
        listing(
            "xiaomi/mimo-pro"@,
            "reasoning (text+tools+thinking, 1M ctx, 128K out) [upstream: mimo-pro]"@,
        ),
        listing(
            "xiaomi/mimo-v2.5"@,
            "provider-qualified v2.5 model [upstream: mimo-v2.5]"@,
        ),
        listing(
            "xiaomi/mimo-v2.5-pro"@,
            "provider-qualified v2.5 reasoning model [upstream: mimo-v2.5-pro]"@,
        ),
        // Legacy provider-qualified ids that the channel still accepts.
        listing(
            "xiaomi/mimo-claw-0301"@,
            "legacy reasoning snapshot [upstream: mimo-pro]"@,
        ),
        listing(
            "xiaomi/MiniMax-M2.5"@,
            "general (text+tools, 128K ctx, 8K out) [upstream: MiniMax-M2.5]"@,
        ),
        listing(
            "xiaomi/kimi-k2.5"@,
            "reasoning (text+tools+thinking, 128K ctx, 8K out) [upstream: kimi-k2.5]"@,
        ),
        listing(
            "xiaomi/glm-5"@,
            "general (text+tools, 128K ctx, 8K out) [upstream: glm-5]"@,
        ),
        // Short aliases that the upstream router accepts.
        listing(
            "mimo"@,
            "alias → xiaomi/mimo [upstream: mimo]"@,
        ),
        listing(
            "mimo-omni"@,
            "alias → xiaomi/mimo [upstream: mimo]"@,
        ),
        listing(
            "mimo-pro"@,
            "alias → xiaomi/mimo-pro [upstream: mimo-pro]"@,
        ),
    ]
}

/// The entry for a model.
fn list_model(id: &str, family: &str) -> (model: ModelInfo)
    ensures
        model@ == listing(id@, family@),
{
    ModelInfo {
        id: id.to_owned(),
        object: "model".to_owned(),
        owned_by: "xiaomi".to_owned(),
        family: family.to_owned(),
    }
}

/// The models that the channel serves: those of [`catalog`], in its order.
pub fn known_models() -> (models: Vec<ModelInfo>)
    ensures
        models@.map_values(|model: ModelInfo| model@) == catalog(),
{
    let mut models: Vec<ModelInfo> = Vec::new();
    // Models that the official client selects.
    models.push(
        list_model(
            "xiaomi/mimo",
            "multimodal (text+vision+tools+thinking, 1M ctx, 128K out) [upstream: mimo]",
        ),
    );
    models.push(
        list_model(
            "xiaomi/mimo-pro",
            "reasoning (text+tools+thinking, 1M ctx, 128K out) [upstream: mimo-pro]",
        ),
    );
    models.push(
        list_model(
            "xiaomi/mimo-v2.5",
            "provider-qualified v2.5 model [upstream: mimo-v2.5]",
        ),
    );
    models.push(
        list_model(
            "xiaomi/mimo-v2.5-pro",
            "provider-qualified v2.5 reasoning model [upstream: mimo-v2.5-pro]",
        ),
    );
    // Legacy provider-qualified ids that the channel still accepts.
    models.push(
        list_model(
            "xiaomi/mimo-claw-0301",
            "legacy reasoning snapshot [upstream: mimo-pro]",
        ),
    );
    models.push(
        list_model(
            "xiaomi/MiniMax-M2.5",
            "general (text+tools, 128K ctx, 8K out) [upstream: MiniMax-M2.5]",
        ),
    );
    models.push(
        list_model(
            "xiaomi/kimi-k2.5",
            "reasoning (text+tools+thinking, 128K ctx, 8K out) [upstream: kimi-k2.5]",
        ),
    );
    models.push(
        list_model(
            "xiaomi/glm-5",
            "general (text+tools, 128K ctx, 8K out) [upstream: glm-5]",
        ),
    );
    // Short aliases that the upstream router accepts.
    models.push(
        list_model(
            "mimo",
            "alias → xiaomi/mimo [upstream: mimo]",
        ),
    );
    models.push(
        list_model(
            "mimo-omni",
            "alias → xiaomi/mimo [upstream: mimo]",
        ),
    );
    models.push(
        list_model(
            "mimo-pro",
            "alias → xiaomi/mimo-pro [upstream: mimo-pro]",
        ),
    );
    assert(models@.map_values(|model: ModelInfo| model@) =~= catalog());
    models
}

/// The ids of the catalog, in order.
pub open spec fn catalog_ids() -> Seq<Seq<char>> {
    catalog().map_values(|model: ModelInfoView| model.id)
}

/// Whether an id names its provider.
pub open spec fn is_provider_qualified(id: Seq<char>) -> bool {
    "xiaomi/"@.is_prefix_of(id)
}

/// Whether an id is a short alias that the upstream router accepts.
pub open spec fn is_short_alias(id: Seq<char>) -> bool {
    id == "mimo"@ || id == "mimo-omni"@ || id == "mimo-pro"@
}

/// No model is listed twice.
pub proof fn catalog_ids_are_distinct(i: int, j: int)
    requires
        0 <= i < j < catalog().len(),
    ensures
        catalog()[i].id != catalog()[j].id,
{
    reveal_strlit("xiaomi/mimo");
    reveal_strlit("xiaomi/mimo-pro");
    reveal_strlit("xiaomi/mimo-v2.5");
    reveal_strlit("xiaomi/mimo-v2.5-pro");
    reveal_strlit("xiaomi/mimo-claw-0301");
    reveal_strlit("xiaomi/MiniMax-M2.5");
    reveal_strlit("xiaomi/kimi-k2.5");
    reveal_strlit("xiaomi/glm-5");
    reveal_strlit("mimo");
    reveal_strlit("mimo-omni");
    reveal_strlit("mimo-pro");
    assert(catalog()[0].id.len() == 11);
    assert(catalog()[1].id.len() == 15);
    assert(catalog()[2].id.len() == 16);
    assert(catalog()[3].id.len() == 20);
    assert(catalog()[4].id.len() == 21);
    assert(catalog()[5].id.len() == 19);
    assert(catalog()[6].id.len() == 16);
    assert(catalog()[7].id.len() == 12);
    assert(catalog()[8].id.len() == 4);
    assert(catalog()[9].id.len() == 9);
    assert(catalog()[10].id.len() == 8);
    assert("xiaomi/mimo-v2.5"@[7] == 'm');
    assert("xiaomi/kimi-k2.5"@[7] == 'k');
}

/// Every listed model is a `model` that `xiaomi` owns.
pub proof fn catalog_models_share_an_owner(i: int)
    requires
        0 <= i < catalog().len(),
    ensures
        catalog()[i].object == "model"@,
        catalog()[i].owned_by == "xiaomi"@,
{
}

/// A listed id either names its provider or is one of the short aliases, and never
/// both.
pub proof fn catalog_ids_are_qualified_or_aliases(i: int)
    requires
        0 <= i < catalog().len(),
    ensures
        is_provider_qualified(catalog()[i].id) <==> !is_short_alias(catalog()[i].id),
{
    reveal_strlit("xiaomi/");
    reveal_strlit("xiaomi/mimo");
    reveal_strlit("xiaomi/mimo-pro");
    reveal_strlit("xiaomi/mimo-v2.5");
    reveal_strlit("xiaomi/mimo-v2.5-pro");
    reveal_strlit("xiaomi/mimo-claw-0301");
    reveal_strlit("xiaomi/MiniMax-M2.5");
    reveal_strlit("xiaomi/kimi-k2.5");
    reveal_strlit("xiaomi/glm-5");
    reveal_strlit("mimo");
    reveal_strlit("mimo-omni");
    reveal_strlit("mimo-pro");
    assert("xiaomi/"@ =~= "xiaomi/mimo"@.subrange(0, 7));
    assert("xiaomi/"@ =~= "xiaomi/mimo-pro"@.subrange(0, 7));
    assert("xiaomi/"@ =~= "xiaomi/mimo-v2.5"@.subrange(0, 7));
    assert("xiaomi/"@ =~= "xiaomi/mimo-v2.5-pro"@.subrange(0, 7));
    assert("xiaomi/"@ =~= "xiaomi/mimo-claw-0301"@.subrange(0, 7));
    assert("xiaomi/"@ =~= "xiaomi/MiniMax-M2.5"@.subrange(0, 7));
    assert("xiaomi/"@ =~= "xiaomi/kimi-k2.5"@.subrange(0, 7));
    assert("xiaomi/"@ =~= "xiaomi/glm-5"@.subrange(0, 7));
    let id = catalog()[i].id;
    if is_short_alias(id) && is_provider_qualified(id) {
        assert(id[0] == "xiaomi/"@[0]);
    }
}

/// The short `mimo-v2.5*` ids, which the channel refuses, are not listed.
pub proof fn catalog_leaves_out_short_v25_ids(id: Seq<char>)
    requires
        "mimo-v2.5"@.is_prefix_of(id),
    ensures
        !catalog_ids().contains(id),
{
    reveal_strlit("mimo-v2.5");
    if catalog_ids().contains(id) {
        let i = choose|i: int| 0 <= i < catalog_ids().len() && catalog_ids()[i] == id;
        reveal_strlit("xiaomi/mimo");
        reveal_strlit("xiaomi/mimo-pro");
        reveal_strlit("xiaomi/mimo-v2.5");
        reveal_strlit("xiaomi/mimo-v2.5-pro");
        reveal_strlit("xiaomi/mimo-claw-0301");
        reveal_strlit("xiaomi/MiniMax-M2.5");
        reveal_strlit("xiaomi/kimi-k2.5");
        reveal_strlit("xiaomi/glm-5");
        reveal_strlit("mimo");
        reveal_strlit("mimo-omni");
        reveal_strlit("mimo-pro");
        assert(id == catalog()[i].id);
        assert(id[0] == "mimo-v2.5"@[0]);
        assert(id[5] == "mimo-v2.5"@[5]);
    }
}

/// The default model, the provider-qualified `v2.5` models and all the short
/// aliases are listed.
pub proof fn catalog_lists_what_clients_rely_on()
    ensures
        catalog_ids().contains(MODEL_DEFAULT@),
        catalog_ids().contains("xiaomi/mimo-v2.5"@),
        catalog_ids().contains("xiaomi/mimo-v2.5-pro"@),
        forall|id: Seq<char>| #[trigger] is_short_alias(id) ==> catalog_ids().contains(id),
{
    assert(catalog_ids()[1] == MODEL_DEFAULT@);
    assert(catalog_ids()[2] == "xiaomi/mimo-v2.5"@);
    assert(catalog_ids()[3] == "xiaomi/mimo-v2.5-pro"@);
    assert(catalog_ids()[8] == "mimo"@);
    assert(catalog_ids()[9] == "mimo-omni"@);
    assert(catalog_ids()[10] == "mimo-pro"@);
}

/// The family of a listed model says what its id stands for: what it takes and thinks with, how
/// much it reads and writes, and which model the upstream routes it to.
pub proof fn catalog_says_what_each_id_stands_for(i: int)
    requires
        0 <= i < catalog().len(),
    ensures
        catalog()[i].id == "xiaomi/mimo"@ ==> catalog()[i].family
            == "multimodal (text+vision+tools+thinking, 1M ctx, 128K out) [upstream: mimo]"@,
        catalog()[i].id == "xiaomi/mimo-pro"@ ==> catalog()[i].family
            == "reasoning (text+tools+thinking, 1M ctx, 128K out) [upstream: mimo-pro]"@,
        catalog()[i].id == "xiaomi/mimo-v2.5"@ ==> catalog()[i].family
            == "provider-qualified v2.5 model [upstream: mimo-v2.5]"@,
        catalog()[i].id == "xiaomi/mimo-v2.5-pro"@ ==> catalog()[i].family
            == "provider-qualified v2.5 reasoning model [upstream: mimo-v2.5-pro]"@,
        catalog()[i].id == "xiaomi/mimo-claw-0301"@ ==> catalog()[i].family
            == "legacy reasoning snapshot [upstream: mimo-pro]"@,
        catalog()[i].id == "xiaomi/MiniMax-M2.5"@ ==> catalog()[i].family
            == "general (text+tools, 128K ctx, 8K out) [upstream: MiniMax-M2.5]"@,
        catalog()[i].id == "xiaomi/kimi-k2.5"@ ==> catalog()[i].family
            == "reasoning (text+tools+thinking, 128K ctx, 8K out) [upstream: kimi-k2.5]"@,
        catalog()[i].id == "xiaomi/glm-5"@ ==> catalog()[i].family
            == "general (text+tools, 128K ctx, 8K out) [upstream: glm-5]"@,
        catalog()[i].id == "mimo"@ ==> catalog()[i].family
            == "alias → xiaomi/mimo [upstream: mimo]"@,
        catalog()[i].id == "mimo-omni"@ ==> catalog()[i].family
            == "alias → xiaomi/mimo [upstream: mimo]"@,
        catalog()[i].id == "mimo-pro"@ ==> catalog()[i].family
            == "alias → xiaomi/mimo-pro [upstream: mimo-pro]"@,
{
    reveal_strlit("xiaomi/mimo");
    reveal_strlit("xiaomi/mimo-pro");
    reveal_strlit("xiaomi/mimo-v2.5");
    reveal_strlit("xiaomi/mimo-v2.5-pro");
    reveal_strlit("xiaomi/mimo-claw-0301");
    reveal_strlit("xiaomi/MiniMax-M2.5");
    reveal_strlit("xiaomi/kimi-k2.5");
    reveal_strlit("xiaomi/glm-5");
    reveal_strlit("mimo");
    reveal_strlit("mimo-omni");
    reveal_strlit("mimo-pro");
    assert(catalog()[0].id.len() == 11);
    assert(catalog()[1].id.len() == 15);
    assert(catalog()[2].id.len() == 16);
    assert(catalog()[3].id.len() == 20);
    assert(catalog()[4].id.len() == 21);
    assert(catalog()[5].id.len() == 19);
    assert(catalog()[6].id.len() == 16);
    assert(catalog()[7].id.len() == 12);
    assert(catalog()[8].id.len() == 4);
    assert(catalog()[9].id.len() == 9);
    assert(catalog()[10].id.len() == 8);
    assert("xiaomi/mimo-v2.5"@[7] == 'm');
    assert("xiaomi/kimi-k2.5"@[7] == 'k');
}

/// Nothing is listed but the models that the channel serves: every one of them is, and there is
/// room for no other.
pub proof fn catalog_lists_each_served_model(id: Seq<char>)
    ensures
        catalog_ids().len() == 11,
        catalog_ids().contains("xiaomi/mimo"@),
        catalog_ids().contains("xiaomi/mimo-pro"@),
        catalog_ids().contains("xiaomi/mimo-v2.5"@),
        catalog_ids().contains("xiaomi/mimo-v2.5-pro"@),
        catalog_ids().contains("xiaomi/mimo-claw-0301"@),
        catalog_ids().contains("xiaomi/MiniMax-M2.5"@),
        catalog_ids().contains("xiaomi/kimi-k2.5"@),
        catalog_ids().contains("xiaomi/glm-5"@),
        catalog_ids().contains("mimo"@),
        catalog_ids().contains("mimo-omni"@),
        catalog_ids().contains("mimo-pro"@),
        catalog_ids().contains(id) ==> is_provider_qualified(id) || is_short_alias(id),
        MODEL_DEFAULT@ == "xiaomi/mimo-pro"@,
{
    assert(catalog_ids()[0] == "xiaomi/mimo"@);
    assert(catalog_ids()[1] == "xiaomi/mimo-pro"@);
    assert(catalog_ids()[2] == "xiaomi/mimo-v2.5"@);
    assert(catalog_ids()[3] == "xiaomi/mimo-v2.5-pro"@);
    assert(catalog_ids()[4] == "xiaomi/mimo-claw-0301"@);
    assert(catalog_ids()[5] == "xiaomi/MiniMax-M2.5"@);
    assert(catalog_ids()[6] == "xiaomi/kimi-k2.5"@);
    assert(catalog_ids()[7] == "xiaomi/glm-5"@);
    assert(catalog_ids()[8] == "mimo"@);
    assert(catalog_ids()[9] == "mimo-omni"@);
    assert(catalog_ids()[10] == "mimo-pro"@);
    if catalog_ids().contains(id) {
        let i = choose|i: int| 0 <= i < catalog_ids().len() && catalog_ids()[i] == id;
        catalog_ids_are_qualified_or_aliases(i);
        assert(id == catalog()[i].id);
    }
}

/// A model is viewed as it is, and its entry holds the id and the family that it is made of.
pub proof fn model_view_keeps_the_model(model: ModelInfo, id: Seq<char>, family: Seq<char>)
    ensures
        model@.id == model.id@,
        model@.object == model.object@,
        model@.owned_by == model.owned_by@,
        model@.family == model.family@,
        listing(id, family).id == id,
        listing(id, family).family == family,
        listing(id, family).object == "model"@,
        listing(id, family).owned_by == "xiaomi"@,
{
}

} // verus!
