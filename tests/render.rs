use nico::cli::{InitArgs, InitGitArgs};
use nico::config::Configuration;
use nico::error::Error;
use nico::render::{clean_template, template_key, TemplateRegistry, FLAKE_TEMPLATE};

fn config() -> Configuration {
    let args = InitArgs {
        path: None,
        description: "My flake".to_string(),
        system: "x86_64-linux".to_string(),
        nix: "unstable".to_string(),
        sops_url: "github:Mic92/sops-nix".to_string(),
        comin_url: "github:nlewo/comin".to_string(),
        git: InitGitArgs { local: true, clone: None, existing: false },
    };
    Configuration::new(&args, vec![])
}

#[test]
fn key_drops_last_extension() {
    assert_eq!(template_key("flake/root.nix.template"), Some("flake/root.nix".to_string()));
    assert_eq!(template_key("a.b"), Some("a".to_string()));
    assert_eq!(template_key("noext"), None);
    assert_eq!(template_key(".hidden"), Some(String::new()));
}

#[test]
fn nix_templates_lose_markers() {
    assert_eq!(clean_template("flake/root.nix", "#! {{#if x}}\nbody\n#! {{/if}}"), "{{#if x}}\nbody\n{{/if}}");
    assert_eq!(clean_template("flake/root.nix", "#!#! a"), "#!a");
    assert_eq!(clean_template("readme.md", "#! keep"), "#! keep");
    assert_eq!(clean_template("x.nix", ""), "");
}

#[test]
fn register_without_extension_fails() {
    let mut t = TemplateRegistry::new();
    assert!(matches!(t.register("noext", "x"), Err(Error::Template(_))));
}

#[test]
fn register_bad_syntax_fails() {
    let mut t = TemplateRegistry::new();
    assert!(matches!(t.register("bad.template", "{{#if x}}never closed"), Err(Error::Template(_))));
}

#[test]
fn render_missing_template_fails() {
    let t = TemplateRegistry::new();
    assert!(matches!(config().render_flake(&t), Err(Error::TemplateRendering(_))));
}

#[test]
fn render_flake_uses_init_fields() {
    let mut t = TemplateRegistry::new();
    t.register(
        "flake/root.nix.template",
        "description = \"{{init.description}}\";\n#! {{#if init.nix}}\nnixpkgs = \"nixpkgs/nixos-{{init.nix}}\";\n#! {{/if}}\nsystem = \"{{init.system}}\";\nextra = [{{resources.extra_flakes}}];",
    )
    .unwrap();
    let text = config().render_flake(&t).unwrap();
    assert!(text.contains("description = \"My flake\";"));
    assert!(text.contains("nixpkgs = \"nixpkgs/nixos-unstable\";"));
    assert!(text.contains("system = \"x86_64-linux\";"));
    assert!(text.contains("extra = [];"));
    assert!(!text.contains("#!"));
    assert_eq!(FLAKE_TEMPLATE, "flake/root.nix");
}

#[test]
fn flake_data_mirrors_init() {
    let data = config().flake_data();
    assert_eq!(data.len(), 2);
    assert_eq!(data[0].0, "init");
    assert_eq!(data[0].1[0], ("description".to_string(), "My flake".to_string()));
    assert_eq!(data[0].1[4], ("system".to_string(), "x86_64-linux".to_string()));
    assert_eq!(data[1].0, "resources");
    assert_eq!(data[1].1, vec![("extra_flakes".to_string(), String::new()), ("dev_packages".to_string(), String::new())]);
}

#[test]
fn render_ignores_resources() {
    let mut t = TemplateRegistry::new();
    t.register("flake/root.nix.template", "{{init.description}}|{{init.system}}").unwrap();
    let a = config();
    let mut b = config();
    b.resources.dev_packages.push("ripgrep".to_string());
    assert_eq!(a.render_flake(&t), b.render_flake(&t));
    assert_eq!(a.render_flake(&t).unwrap(), "My flake|x86_64-linux");
}

#[test]
fn partials_are_refused() {
    let mut t = TemplateRegistry::new();
    for text in [
        "{{> b}}",
        "x {{~ > b}}",
        "{{#> layout}}body{{/layout}}",
        "{{#*inline \"a\"}}{{> a}}{{/inline}}{{> a}}",
        "{{* inline}}",
    ] {
        assert!(matches!(t.register("a.template", text), Err(Error::Template(_))), "{text}");
    }
    assert!(t.register("b.template", "{{#if x}}>{{/if}} a > b").is_ok());
}

#[test]
fn mutual_partials_cannot_be_registered() {
    let mut t = TemplateRegistry::new();
    assert!(t.register("a.template", "{{> b}}").is_err());
    assert!(t.register("b.template", "{{> a}}").is_err());
    assert!(matches!(config().render_flake(&t), Err(Error::TemplateRendering(_))));
}
