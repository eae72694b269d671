use vstd::prelude::*;
use vstd::string::*;

verus! {

/// A measurement of the flat request model, bound to its target.
#[derive(Debug)]
pub struct Definition {
    pub def_type: String,
    pub af: u8,
    pub resolve_on_probe: bool,
    pub packets: u32,
    pub size: u32,
    pub skip_dns_check: bool,
    pub include_probe_id: bool,
    pub target: String,
    pub tags: Vec<String>,
    pub interval: Option<u32>,
}

/// A measurement of the flat request model that has no target yet.
pub struct DefinitionTemplate {
    pub def_type: String,
    pub af: u8,
    pub resolve_on_probe: bool,
    pub packets: u32,
    pub size: u32,
    pub skip_dns_check: bool,
    pub include_probe_id: bool,
    pub tags: Vec<String>,
    pub interval: Option<u32>,
}

impl DefinitionTemplate {
    /// The definition that the template becomes for `target`: the same
    /// measurement with that target.
    pub fn to_definition(&self, target: String) -> (definition: Definition)
        ensures
            definition.def_type@ == self.def_type@,
            definition.af == self.af,
            definition.resolve_on_probe == self.resolve_on_probe,
            definition.packets == self.packets,
            definition.size == self.size,
            definition.skip_dns_check == self.skip_dns_check,
            definition.include_probe_id == self.include_probe_id,
            definition.target == target,
            definition.tags.deep_view() == self.tags.deep_view(),
            definition.interval == self.interval,
    {
        let tags = self.tags.clone();
        assert(tags.deep_view() =~= self.tags.deep_view());
        Definition {
            def_type: self.def_type.clone(),
            af: self.af,
            resolve_on_probe: self.resolve_on_probe,
            packets: self.packets,
            size: self.size,
            skip_dns_check: self.skip_dns_check,
            include_probe_id: self.include_probe_id,
            target,
            tags,
            interval: self.interval,
        }
    }
}

/// Collects the parameters of a [`DefinitionTemplate`] one by one.
///
/// Every parameter but the type has a default: IPv4, three packets of 48
/// bytes, no tags, no interval, and every flag off.
pub struct DefinitionTemplateBuilder {
    pub def_type: Option<String>,
    pub af: u8,
    pub resolve_on_probe: bool,
    pub packets: u32,
    pub size: u32,
    pub skip_dns_check: bool,
    pub include_probe_id: bool,
    pub tags: Vec<String>,
    pub interval: Option<u32>,
}

impl DefinitionTemplateBuilder {
    pub fn new() -> (r: Self)
        ensures
            r.def_type is None,
            r.af == 4,
            !r.resolve_on_probe,
            r.packets == 3,
            r.size == 48,
            !r.skip_dns_check,
            !r.include_probe_id,
            r.tags@.len() == 0,
            r.interval is None,
    {
        Self {
            def_type: None,
            af: 4,
            resolve_on_probe: false,
            packets: 3,
            size: 48,
            skip_dns_check: false,
            include_probe_id: false,
            tags: Vec::new(),
            interval: None,
        }
    }

    pub fn def_type(self, def_type: String) -> (r: Self)
        ensures
            r == (Self { def_type: Some(def_type), ..self }),
    {
        Self { def_type: Some(def_type), ..self }
    }

    pub fn af(self, af: u8) -> (r: Self)
        ensures
            r == (Self { af, ..self }),
    {
        Self { af, ..self }
    }

    pub fn resolve_on_probe(self, v: bool) -> (r: Self)
        ensures
            r == (Self { resolve_on_probe: v, ..self }),
    {
        Self { resolve_on_probe: v, ..self }
    }

    pub fn packets(self, p: u32) -> (r: Self)
        ensures
            r == (Self { packets: p, ..self }),
    {
        Self { packets: p, ..self }
    }

    pub fn size(self, s: u32) -> (r: Self)
        ensures
            r == (Self { size: s, ..self }),
    {
        Self { size: s, ..self }
    }

    pub fn skip_dns_check(self, v: bool) -> (r: Self)
        ensures
            r == (Self { skip_dns_check: v, ..self }),
    {
        Self { skip_dns_check: v, ..self }
    }

    pub fn include_probe_id(self, v: bool) -> (r: Self)
        ensures
            r == (Self { include_probe_id: v, ..self }),
    {
        Self { include_probe_id: v, ..self }
    }

    pub fn tags(self, tags: Vec<String>) -> (r: Self)
        ensures
            r == (Self { tags, ..self }),
    {
        Self { tags, ..self }
    }

    pub fn interval(self, interval: Option<u32>) -> (r: Self)
        ensures
            r == (Self { interval, ..self }),
    {
        Self { interval, ..self }
    }

    /// The template of the collected parameters.
    ///
    /// Fails exactly when no type was set.
    pub fn build(self) -> (outcome: Result<DefinitionTemplate, &'static str>)
        ensures
            match self.def_type {
                Some(def_type) => outcome is Ok && outcome->Ok_0 == (DefinitionTemplate {
                    def_type,
                    af: self.af,
                    resolve_on_probe: self.resolve_on_probe,
                    packets: self.packets,
                    size: self.size,
                    skip_dns_check: self.skip_dns_check,
                    include_probe_id: self.include_probe_id,
                    tags: self.tags,
                    interval: self.interval,
                }),
                None => outcome is Err && outcome->Err_0@ == "Missing field: definition type"@,
            },
    {
        match self.def_type {
            Some(def_type) => Ok(
                DefinitionTemplate {
                    def_type,
                    af: self.af,
                    resolve_on_probe: self.resolve_on_probe,
                    packets: self.packets,
                    size: self.size,
                    skip_dns_check: self.skip_dns_check,
                    include_probe_id: self.include_probe_id,
                    tags: self.tags,
                    interval: self.interval,
                },
            ),
            None => Err("Missing field: definition type"),
        }
    }
}

} // verus!
