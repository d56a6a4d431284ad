//! The model catalog: a fixed table from model identifier (the model file's
//! name) to the descriptor that holds its chat template and size metadata.
use vstd::prelude::*;

use crate::text::{owned, same_text};

verus! {

/// A model that the backend can run, with the markers of its chat template.
///
/// A turn is rendered as `prefix`, role tag, `suffix`, the text, then `eot`.
#[derive(Clone, Debug)]
pub struct Model {
    /// Human-readable name.
    pub name: String,
    /// Repository the model file is published in.
    pub repo: String,
    /// Estimated size on disk, in bytes.
    pub size: i64,
    /// Opens the header of a turn.
    pub prefix: String,
    /// Closes the header of a turn.
    pub suffix: String,
    /// Ends a turn.
    pub eot: String,
    /// Role tag of the system turn.
    pub sys: String,
    /// Role tag of a user turn.
    pub us: String,
    /// Role tag of an assistant turn.
    pub ast: String,
    /// Whether the model accepts images.
    pub supports_vision: bool,
    /// Parameter count, as published ("1B").
    pub params: String,
}

/// What a `Model` holds, as mathematical values.
pub ghost struct ModelView {
    pub name: Seq<char>,
    pub repo: Seq<char>,
    pub size: i64,
    pub prefix: Seq<char>,
    pub suffix: Seq<char>,
    pub eot: Seq<char>,
    pub sys: Seq<char>,
    pub us: Seq<char>,
    pub ast: Seq<char>,
    pub supports_vision: bool,
    pub params: Seq<char>,
}

impl View for Model {
    type V = ModelView;

    open spec fn view(&self) -> ModelView {
        ModelView {
            name: self.name@,
            repo: self.repo@,
            size: self.size,
            prefix: self.prefix@,
            suffix: self.suffix@,
            eot: self.eot@,
            sys: self.sys@,
            us: self.us@,
            ast: self.ast@,
            supports_vision: self.supports_vision,
            params: self.params@,
        }
    }
}

impl Model {
    /// A field-by-field copy.
    pub fn duplicate(&self) -> (r: Model)
        ensures
            r@ == self@,
    {
        Model {
            name: self.name.clone(),
            repo: self.repo.clone(),
            size: self.size,
            prefix: self.prefix.clone(),
            suffix: self.suffix.clone(),
            eot: self.eot.clone(),
            sys: self.sys.clone(),
            us: self.us.clone(),
            ast: self.ast.clone(),
            supports_vision: self.supports_vision,
            params: self.params.clone(),
        }
    }
}

/// One row of the catalog.
#[derive(Clone, Debug)]
pub struct CatalogEntry {
    /// Identifier of the model: the name of its file.
    pub id: String,
    pub model: Model,
}

/// A table of models keyed by identifier, in a fixed order. It is
/// well-formed (`wf`) when no identifier occurs twice.
#[derive(Clone, Debug)]
pub struct ModelCatalog {
    pub entries: Vec<CatalogEntry>,
}

impl View for ModelCatalog {
    type V = Seq<(Seq<char>, ModelView)>;

    open spec fn view(&self) -> Seq<(Seq<char>, ModelView)> {
        self.entries@.map_values(|e: CatalogEntry| (e.id@, e.model@))
    }
}

/// Whether no identifier occurs twice in `entries`.
pub open spec fn ids_unique(entries: Seq<(Seq<char>, ModelView)>) -> bool {
    forall|i: int, j: int|
        0 <= i < entries.len() && 0 <= j < entries.len() && i != j ==> entries[i].0 != entries[j].0
}

/// Whether some entry of `entries` has the identifier `id`.
pub open spec fn has_id(entries: Seq<(Seq<char>, ModelView)>, id: Seq<char>) -> bool {
    exists|i: int| 0 <= i < entries.len() && entries[i].0 == id
}

/// Whether `i` is the first position of `entries` with the identifier `id`.
pub open spec fn first_with_id(entries: Seq<(Seq<char>, ModelView)>, id: Seq<char>, i: int) -> bool {
    &&& 0 <= i < entries.len()
    &&& entries[i].0 == id
    &&& forall|j: int| 0 <= j < i ==> entries[j].0 != id
}

impl ModelCatalog {
    /// Identifiers are unique: each looks up one model.
    pub open spec fn wf(&self) -> bool {
        ids_unique(self@)
    }

    /// Whether the catalog lists a model with the identifier `id`.
    pub fn contains(&self, id: &str) -> (r: bool)
        ensures
            r == has_id(self@, id@),
    {
        match self.position(id) {
            Some(_) => true,
            None => false,
        }
    }

    /// The descriptor of the model `id`, if the catalog lists it.
    pub fn get(&self, id: &str) -> (r: Option<&Model>)
        ensures
            r is None <==> !has_id(self@, id@),
            r matches Some(m) ==> exists|i: int| first_with_id(self@, id@, i) && m@ == self@[i].1,
            self.wf() ==> (r matches Some(m) ==> forall|i: int|
                0 <= i < self@.len() && #[trigger] self@[i].0 == id@ ==> m@ == self@[i].1),
    {
        match self.position(id) {
            Some(i) => Some(&self.entries[i].model),
            None => None,
        }
    }

    /// The first position that holds the identifier `id`.
    fn position(&self, id: &str) -> (r: Option<usize>)
        ensures
            r is None <==> !has_id(self@, id@),
            r matches Some(i) ==> first_with_id(self@, id@, i as int),
    {
        let mut i: usize = 0;
        while i < self.entries.len()
            invariant
                i <= self.entries@.len(),
                forall|j: int| 0 <= j < i ==> self@[j].0 != id@,
            decreases self.entries@.len() - i,
        {
            if same_text(self.entries[i].id.as_str(), id) {
                assert(self@[i as int].0 == id@);
                return Some(i);
            }
            i = i + 1;
        }
        None
    }
}

/// Identifier of the Gemma 3 1B instruction model.
pub const GEMMA_3_1B: &'static str = "gemma-3-1b-it-Q4_K_M.gguf";

/// Identifier of the Llama 3.2 1B instruction model.
pub const LLAMA_3_2_1B: &'static str = "Llama-3.2-1B-Instruct-Q4_K_M.gguf";

/// Identifier of the SmolLM2 360M instruction model.
pub const SMOLLM2_360M: &'static str = "SmolLM2-360M-Instruct.Q4_K_M.gguf";

/// Size estimate of each built-in model file, in bytes.
pub const DEFAULT_MODEL_FILE_BYTES: i64 = 1073741824;

/// The descriptor made of the given texts.
pub open spec fn descriptor(
    name: Seq<char>,
    repo: Seq<char>,
    prefix: Seq<char>,
    suffix: Seq<char>,
    eot: Seq<char>,
    sys: Seq<char>,
    us: Seq<char>,
    ast: Seq<char>,
    supports_vision: bool,
    params: Seq<char>,
) -> ModelView {
    ModelView {
        name,
        repo,
        size: DEFAULT_MODEL_FILE_BYTES,
        prefix,
        suffix,
        eot,
        sys,
        us,
        ast,
        supports_vision,
        params,
    }
}

/// The built-in catalog, in this order.
pub open spec fn default_catalog() -> Seq<(Seq<char>, ModelView)> {
    seq![
        (
            GEMMA_3_1B@,
            descriptor(
                "Gemma-3-1B-It"@,
                "unsloth/gemma-3-1b-it-GGUF"@,
                "<start_of_turn>"@,
                "\n"@,
                "<end_of_turn>\n"@,
                "model"@,
                "user"@,
                "model"@,
                true,
                "1B"@,
            ),
        ),
        (
            LLAMA_3_2_1B@,
            descriptor(
                "Llama-3.2-1B-Instruct"@,
                "bartowski/Llama-3.2-1B-Instruct-GGUF"@,
                "<|start_header_id|>"@,
                "<|end_header_id|>\n"@,
                "<|eot_id|>"@,
                "system"@,
                "user"@,
                "assistant"@,
                false,
                "1B"@,
            ),
        ),
        (
            SMOLLM2_360M@,
            descriptor(
                "SmolLM2-360M-Instruct"@,
                "QuantFactory/SmolLM2-360M-Instruct-GGUF"@,
                "<start_of_turn>"@,
                "\n"@,
                "<end_of_turn>\n"@,
                "system"@,
                "user"@,
                "assistant"@,
                false,
                "360M"@,
            ),
        ),
    ]
}

/// An entry built from the given texts.
fn entry(
    id: &str,
    name: &str,
    repo: &str,
    prefix: &str,
    suffix: &str,
    eot: &str,
    sys: &str,
    us: &str,
    ast: &str,
    supports_vision: bool,
    params: &str,
) -> (r: CatalogEntry)
    ensures
        r.id@ == id@,
        r.model@ == descriptor(name@, repo@, prefix@, suffix@, eot@, sys@, us@, ast@, supports_vision, params@),
{
    CatalogEntry {
        id: owned(id),
        model: Model {
            name: owned(name),
            repo: owned(repo),
            size: DEFAULT_MODEL_FILE_BYTES,
            prefix: owned(prefix),
            suffix: owned(suffix),
            eot: owned(eot),
            sys: owned(sys),
            us: owned(us),
            ast: owned(ast),
            supports_vision,
            params: owned(params),
        },
    }
}

/// The models this backend knows of, with their chat templates.
pub fn default_models() -> (r: ModelCatalog)
    ensures
        r@ == default_catalog(),
        r.wf(),
{
    let mut entries: Vec<CatalogEntry> = Vec::new();
    entries.push(entry(
        GEMMA_3_1B,
        "Gemma-3-1B-It",
        "unsloth/gemma-3-1b-it-GGUF",
        "<start_of_turn>",
        "\n",
        "<end_of_turn>\n",
        "model",
        "user",
        "model",
        true,
        "1B",
    ));
    entries.push(entry(
        LLAMA_3_2_1B,
        "Llama-3.2-1B-Instruct",
        "bartowski/Llama-3.2-1B-Instruct-GGUF",
        "<|start_header_id|>",
        "<|end_header_id|>\n",
        "<|eot_id|>",
        "system",
        "user",
        "assistant",
        false,
        "1B",
    ));
    entries.push(entry(
        SMOLLM2_360M,
        "SmolLM2-360M-Instruct",
        "QuantFactory/SmolLM2-360M-Instruct-GGUF",
        "<start_of_turn>",
        "\n",
        "<end_of_turn>\n",
        "system",
        "user",
        "assistant",
        false,
        "360M",
    ));
    let r = ModelCatalog { entries };
    assert(r@ =~= default_catalog());
    proof {
        reveal_strlit("gemma-3-1b-it-Q4_K_M.gguf");
        reveal_strlit("Llama-3.2-1B-Instruct-Q4_K_M.gguf");
        reveal_strlit("SmolLM2-360M-Instruct.Q4_K_M.gguf");
        assert(GEMMA_3_1B@[0] != LLAMA_3_2_1B@[0]);
        assert(GEMMA_3_1B@[0] != SMOLLM2_360M@[0]);
        assert(LLAMA_3_2_1B@[0] != SMOLLM2_360M@[0]);
    }
    r
}

} // verus!
