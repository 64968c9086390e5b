//! The languages of the library are line languages: each one's delimiters are
//! free of newlines and none of them starts at a whitespace byte.
use vstd::prelude::*;

use super::classify::is_non_ws;
use super::lines::counts_each_line;
use super::lines::lemma_newline_free;
use super::lines::lemma_plain_counts_each_line;
use super::lines::line_language;
use super::lines::plain_region;
use crate::engine::language::JUPYTER_NOTEBOOKS;
use crate::engine::language::LANGUAGE_COUNT;
use crate::engine::language::language_view;
use crate::engine::language::dotnet_resource_view;
use crate::engine::language::abap_view;
use crate::engine::language::abnf_view;
use crate::engine::language::asn_1_view;
use crate::engine::language::asp_view;
use crate::engine::language::asp_net_view;
use crate::engine::language::actionscript_view;
use crate::engine::language::ada_view;
use crate::engine::language::agda_view;
use crate::engine::language::alex_view;
use crate::engine::language::alloy_view;
use crate::engine::language::apache_velocity_view;
use crate::engine::language::arduino_cpp_view;
use crate::engine::language::asciidoc_view;
use crate::engine::language::assembly_view;
use crate::engine::language::autohotkey_view;
use crate::engine::language::autoconf_view;
use crate::engine::language::automake_view;
use crate::engine::language::bash_view;
use crate::engine::language::batch_view;
use crate::engine::language::bean_view;
use crate::engine::language::brightscript_view;
use crate::engine::language::c_view;
use crate::engine::language::c_header_view;
use crate::engine::language::c_shell_view;
use crate::engine::language::csharp_view;
use crate::engine::language::cpp_view;
use crate::engine::language::cpp_header_view;
use crate::engine::language::cmake_view;
use crate::engine::language::cobol_view;
use crate::engine::language::css_view;
use crate::engine::language::cabal_view;
use crate::engine::language::cassius_view;
use crate::engine::language::ceylon_view;
use crate::engine::language::clojure_view;
use crate::engine::language::clojurec_view;
use crate::engine::language::clojurescript_view;
use crate::engine::language::codeql_view;
use crate::engine::language::coffeescript_view;
use crate::engine::language::cogent_view;
use crate::engine::language::coldfusion_view;
use crate::engine::language::coldfusion_cfscript_view;
use crate::engine::language::coq_view;
use crate::engine::language::crystal_view;
use crate::engine::language::d_view;
use crate::engine::language::daml_view;
use crate::engine::language::dart_view;
use crate::engine::language::device_tree_view;
use crate::engine::language::dhall_view;
use crate::engine::language::dockerfile_view;
use crate::engine::language::dream_maker_view;
use crate::engine::language::dust_js_view;
use crate::engine::language::edn_view;
use crate::engine::language::elixir_view;
use crate::engine::language::elm_view;
use crate::engine::language::elvish_view;
use crate::engine::language::emacs_dev_env_view;
use crate::engine::language::emacs_lisp_view;
use crate::engine::language::emojicode_view;
use crate::engine::language::erlang_view;
use crate::engine::language::fsharp_view;
use crate::engine::language::f_view;
use crate::engine::language::fen_view;
use crate::engine::language::fortran_legacy_view;
use crate::engine::language::fortran_modern_view;
use crate::engine::language::fish_view;
use crate::engine::language::flatbuffers_schema_view;
use crate::engine::language::forth_view;
use crate::engine::language::freemarker_view;
use crate::engine::language::futhark_view;
use crate::engine::language::gdb_script_view;
use crate::engine::language::gdscript_view;
use crate::engine::language::glsl_view;
use crate::engine::language::gnu_style_assembly_view;
use crate::engine::language::gherkin_cucumber_view;
use crate::engine::language::gleam_view;
use crate::engine::language::go_view;
use crate::engine::language::go_html_view;
use crate::engine::language::graphql_view;
use crate::engine::language::groovy_view;
use crate::engine::language::gwion_view;
use crate::engine::language::hcl_view;
use crate::engine::language::hex_view;
use crate::engine::language::hlsl_view;
use crate::engine::language::html_view;
use crate::engine::language::hamlet_view;
use crate::engine::language::handlebars_view;
use crate::engine::language::happy_view;
use crate::engine::language::haskell_view;
use crate::engine::language::haxe_view;
use crate::engine::language::headache_view;
use crate::engine::language::holyc_view;
use crate::engine::language::ini_view;
use crate::engine::language::idris_view;
use crate::engine::language::intel_hex_view;
use crate::engine::language::isabelle_view;
use crate::engine::language::jai_view;
use crate::engine::language::json_view;
use crate::engine::language::jsx_view;
use crate::engine::language::java_view;
use crate::engine::language::javascript_view;
use crate::engine::language::jsonnet_view;
use crate::engine::language::julia_view;
use crate::engine::language::julius_view;
use crate::engine::language::k_view;
use crate::engine::language::kakoune_script_view;
use crate::engine::language::kotlin_view;
use crate::engine::language::ld_script_view;
use crate::engine::language::less_view;
use crate::engine::language::llvm_view;
use crate::engine::language::lean_view;
use crate::engine::language::liquid_view;
use crate::engine::language::lisp_view;
use crate::engine::language::livescript_view;
use crate::engine::language::logtalk_view;
use crate::engine::language::lua_view;
use crate::engine::language::lucius_view;
use crate::engine::language::msbuild_view;
use crate::engine::language::madlang_view;
use crate::engine::language::makefile_view;
use crate::engine::language::markdown_view;
use crate::engine::language::meson_view;
use crate::engine::language::mint_view;
use crate::engine::language::module_definition_view;
use crate::engine::language::moonscript_view;
use crate::engine::language::mustache_view;
use crate::engine::language::nim_view;
use crate::engine::language::nix_view;
use crate::engine::language::not_quite_perl_view;
use crate::engine::language::ocaml_view;
use crate::engine::language::objective_c_view;
use crate::engine::language::objective_cpp_view;
use crate::engine::language::odin_view;
use crate::engine::language::opentype_feature_file_view;
use crate::engine::language::org_view;
use crate::engine::language::oz_view;
use crate::engine::language::php_view;
use crate::engine::language::psl_assertion_view;
use crate::engine::language::pan_view;
use crate::engine::language::pascal_view;
use crate::engine::language::perl_view;
use crate::engine::language::pest_view;
use crate::engine::language::plain_text_view;
use crate::engine::language::polly_view;
use crate::engine::language::pony_view;
use crate::engine::language::postcss_view;
use crate::engine::language::powershell_view;
use crate::engine::language::processing_view;
use crate::engine::language::prolog_view;
use crate::engine::language::protocol_buffers_view;
use crate::engine::language::pug_view;
use crate::engine::language::purescript_view;
use crate::engine::language::python_view;
use crate::engine::language::q_view;
use crate::engine::language::qcl_view;
use crate::engine::language::qml_view;
use crate::engine::language::r_view;
use crate::engine::language::rpm_specfile_view;
use crate::engine::language::racket_view;
use crate::engine::language::rakefile_view;
use crate::engine::language::rakudo_view;
use crate::engine::language::razor_view;
use crate::engine::language::restructuredtext_view;
use crate::engine::language::ren_py_view;
use crate::engine::language::ruby_view;
use crate::engine::language::ruby_html_view;
use crate::engine::language::rust_view;
use crate::engine::language::rusty_object_notation_view;
use crate::engine::language::sql_view;
use crate::engine::language::srecode_template_view;
use crate::engine::language::svg_view;
use crate::engine::language::swig_view;
use crate::engine::language::sass_view;
use crate::engine::language::scala_view;
use crate::engine::language::scheme_view;
use crate::engine::language::scons_view;
use crate::engine::language::shell_view;
use crate::engine::language::solidity_view;
use crate::engine::language::specman_e_view;
use crate::engine::language::spice_netlist_view;
use crate::engine::language::stan_view;
use crate::engine::language::standard_ml_sml_view;
use crate::engine::language::stratego_xt_view;
use crate::engine::language::stylus_view;
use crate::engine::language::svelte_view;
use crate::engine::language::swift_view;
use crate::engine::language::systemverilog_view;
use crate::engine::language::tcl_view;
use crate::engine::language::toml_view;
use crate::engine::language::tsx_view;
use crate::engine::language::ttcn_3_view;
use crate::engine::language::tex_view;
use crate::engine::language::tera_view;
use crate::engine::language::thrift_view;
use crate::engine::language::twig_view;
use crate::engine::language::typescript_view;
use crate::engine::language::unreal_markdown_view;
use crate::engine::language::unreal_plugin_view;
use crate::engine::language::unreal_project_view;
use crate::engine::language::unreal_script_view;
use crate::engine::language::unreal_shader_view;
use crate::engine::language::unreal_shader_header_view;
use crate::engine::language::ur_web_view;
use crate::engine::language::ur_web_project_view;
use crate::engine::language::vb6_view;
use crate::engine::language::vbscript_view;
use crate::engine::language::vhdl_view;
use crate::engine::language::vala_view;
use crate::engine::language::verilog_view;
use crate::engine::language::verilog_args_file_view;
use crate::engine::language::vim_script_view;
use crate::engine::language::visual_basic_view;
use crate::engine::language::visual_studio_project_view;
use crate::engine::language::visual_studio_solution_view;
use crate::engine::language::vue_view;
use crate::engine::language::webassembly_view;
use crate::engine::language::wolfram_view;
use crate::engine::language::xaml_view;
use crate::engine::language::xml_view;
use crate::engine::language::xsl_view;
use crate::engine::language::xcode_config_view;
use crate::engine::language::xtend_view;
use crate::engine::language::yaml_view;
use crate::engine::language::zig_view;
use crate::engine::language::zsh_view;

verus! {

proof fn lemma_lines_dotnet_resource()
    ensures
        line_language(dotnet_resource_view()),
{
    let l = dotnet_resource_view();
    lemma_newline_free(seq![60u8, 33u8, 45u8, 45u8]);
    lemma_newline_free(seq![45u8, 45u8, 62u8]);
    lemma_newline_free(seq![34u8]);
    assert forall|i: int| 0 <= i < l.regions.len() implies (#[trigger] l.regions[i]).kind is Child
        || plain_region(l.regions[i]) by {
        assert(i == 0 || i == 1);
    }
    assert forall|k: int| 0 <= k < l.interest_bytes.len() implies is_non_ws(#[trigger] l.interest_bytes[k]) by {
        assert(k == 0 || k == 1 || k == 2);
    }
    assert(l.interest_bytes[0] == 10u8);
}

proof fn lemma_lines_abap()
    ensures
        line_language(abap_view()),
{
    let l = abap_view();
    lemma_newline_free(seq![42u8]);
    lemma_newline_free(seq![34u8]);
    assert forall|i: int| 0 <= i < l.regions.len() implies (#[trigger] l.regions[i]).kind is Child
        || plain_region(l.regions[i]) by {
        assert(i == 0 || i == 1);
    }
    assert forall|k: int| 0 <= k < l.interest_bytes.len() implies is_non_ws(#[trigger] l.interest_bytes[k]) by {
        assert(k == 0 || k == 1 || k == 2);
    }
    assert(l.interest_bytes[0] == 10u8);
}

proof fn lemma_lines_abnf()
    ensures
        line_language(abnf_view()),
{
    let l = abnf_view();
    lemma_newline_free(seq![59u8]);
    assert forall|i: int| 0 <= i < l.regions.len() implies (#[trigger] l.regions[i]).kind is Child
        || plain_region(l.regions[i]) by {
        assert(i == 0);
    }
    assert forall|k: int| 0 <= k < l.interest_bytes.len() implies is_non_ws(#[trigger] l.interest_bytes[k]) by {
        assert(k == 0 || k == 1);
    }
    assert(l.interest_bytes[0] == 10u8);
}

proof fn lemma_lines_asn_1()
    ensures
        line_language(asn_1_view()),
{
    let l = asn_1_view();
    lemma_newline_free(seq![45u8, 45u8]);
    lemma_newline_free(seq![47u8, 42u8]);
    lemma_newline_free(seq![42u8, 47u8]);
    lemma_newline_free(seq![34u8]);
    lemma_newline_free(seq![39u8]);
    assert forall|i: int| 0 <= i < l.regions.len() implies (#[trigger] l.regions[i]).kind is Child
        || plain_region(l.regions[i]) by {
        assert(i == 0 || i == 1 || i == 2 || i == 3);
    }
    assert forall|k: int| 0 <= k < l.interest_bytes.len() implies is_non_ws(#[trigger] l.interest_bytes[k]) by {
        assert(k == 0 || k == 1 || k == 2 || k == 3 || k == 4);
    }
    assert(l.interest_bytes[0] == 10u8);
}

proof fn lemma_lines_asp()
    ensures
        line_language(asp_view()),
{
    let l = asp_view();
    lemma_newline_free(seq![82u8, 69u8, 77u8]);
    lemma_newline_free(seq![39u8]);
    assert forall|i: int| 0 <= i < l.regions.len() implies (#[trigger] l.regions[i]).kind is Child
        || plain_region(l.regions[i]) by {
        assert(i == 0 || i == 1);
    }
    assert forall|k: int| 0 <= k < l.interest_bytes.len() implies is_non_ws(#[trigger] l.interest_bytes[k]) by {
        assert(k == 0 || k == 1 || k == 2);
    }
    assert(l.interest_bytes[0] == 10u8);
}

proof fn lemma_lines_asp_net()
    ensures
        line_language(asp_net_view()),
{
    let l = asp_net_view();
    lemma_newline_free(seq![60u8, 33u8, 45u8, 45u8]);
    lemma_newline_free(seq![45u8, 45u8, 62u8]);
    lemma_newline_free(seq![60u8, 37u8, 45u8, 45u8]);
    assert forall|i: int| 0 <= i < l.regions.len() implies (#[trigger] l.regions[i]).kind is Child
        || plain_region(l.regions[i]) by {
        assert(i == 0 || i == 1);
    }
    assert forall|k: int| 0 <= k < l.interest_bytes.len() implies is_non_ws(#[trigger] l.interest_bytes[k]) by {
        assert(k == 0 || k == 1);
    }
    assert(l.interest_bytes[0] == 10u8);
}

proof fn lemma_lines_actionscript()
    ensures
        line_language(actionscript_view()),
{
    let l = actionscript_view();
    lemma_newline_free(seq![47u8, 47u8]);
    lemma_newline_free(seq![47u8, 42u8]);
    lemma_newline_free(seq![42u8, 47u8]);
    lemma_newline_free(seq![34u8]);
    assert forall|i: int| 0 <= i < l.regions.len() implies (#[trigger] l.regions[i]).kind is Child
        || plain_region(l.regions[i]) by {
        assert(i == 0 || i == 1 || i == 2);
    }
    assert forall|k: int| 0 <= k < l.interest_bytes.len() implies is_non_ws(#[trigger] l.interest_bytes[k]) by {
        assert(k == 0 || k == 1 || k == 2);
    }
    assert(l.interest_bytes[0] == 10u8);
}

proof fn lemma_lines_ada()
    ensures
        line_language(ada_view()),
{
    let l = ada_view();
    lemma_newline_free(seq![45u8, 45u8]);
    assert forall|i: int| 0 <= i < l.regions.len() implies (#[trigger] l.regions[i]).kind is Child
        || plain_region(l.regions[i]) by {
        assert(i == 0);
    }
    assert forall|k: int| 0 <= k < l.interest_bytes.len() implies is_non_ws(#[trigger] l.interest_bytes[k]) by {
        assert(k == 0 || k == 1);
    }
    assert(l.interest_bytes[0] == 10u8);
}

proof fn lemma_lines_agda()
    ensures
        line_language(agda_view()),
{
    let l = agda_view();
    lemma_newline_free(seq![45u8, 45u8]);
    lemma_newline_free(seq![123u8, 45u8]);
    lemma_newline_free(seq![45u8, 125u8]);
    assert forall|i: int| 0 <= i < l.regions.len() implies (#[trigger] l.regions[i]).kind is Child
        || plain_region(l.regions[i]) by {
        assert(i == 0 || i == 1);
    }
    assert forall|k: int| 0 <= k < l.interest_bytes.len() implies is_non_ws(#[trigger] l.interest_bytes[k]) by {
        assert(k == 0 || k == 1 || k == 2);
    }
    assert(l.interest_bytes[0] == 10u8);
}

proof fn lemma_lines_alex()
    ensures
        line_language(alex_view()),
{
    let l = alex_view();
    assert forall|k: int| 0 <= k < l.interest_bytes.len() implies is_non_ws(#[trigger] l.interest_bytes[k]) by {
        assert(k == 0);
    }
    assert(l.interest_bytes[0] == 10u8);
}

proof fn lemma_lines_alloy()
    ensures
        line_language(alloy_view()),
{
    let l = alloy_view();
    lemma_newline_free(seq![45u8, 45u8]);
    lemma_newline_free(seq![47u8, 47u8]);
    lemma_newline_free(seq![47u8, 42u8]);
    lemma_newline_free(seq![42u8, 47u8]);
    assert forall|i: int| 0 <= i < l.regions.len() implies (#[trigger] l.regions[i]).kind is Child
        || plain_region(l.regions[i]) by {
        assert(i == 0 || i == 1 || i == 2);
    }
    assert forall|k: int| 0 <= k < l.interest_bytes.len() implies is_non_ws(#[trigger] l.interest_bytes[k]) by {
        assert(k == 0 || k == 1 || k == 2);
    }
    assert(l.interest_bytes[0] == 10u8);
}

proof fn lemma_lines_apache_velocity()
    ensures
        line_language(apache_velocity_view()),
{
    let l = apache_velocity_view();
    lemma_newline_free(seq![35u8, 35u8]);
    lemma_newline_free(seq![35u8, 42u8]);
    lemma_newline_free(seq![42u8, 35u8]);
    lemma_newline_free(seq![39u8]);
    lemma_newline_free(seq![34u8]);
    assert forall|i: int| 0 <= i < l.regions.len() implies (#[trigger] l.regions[i]).kind is Child
        || plain_region(l.regions[i]) by {
        assert(i == 0 || i == 1 || i == 2 || i == 3);
    }
    assert forall|k: int| 0 <= k < l.interest_bytes.len() implies is_non_ws(#[trigger] l.interest_bytes[k]) by {
        assert(k == 0 || k == 1 || k == 2 || k == 3);
    }
    assert(l.interest_bytes[0] == 10u8);
}

proof fn lemma_lines_arduino_cpp()
    ensures
        line_language(arduino_cpp_view()),
{
    let l = arduino_cpp_view();
    lemma_newline_free(seq![47u8, 47u8]);
    lemma_newline_free(seq![47u8, 42u8]);
    lemma_newline_free(seq![42u8, 47u8]);
    lemma_newline_free(seq![34u8]);
    assert forall|i: int| 0 <= i < l.regions.len() implies (#[trigger] l.regions[i]).kind is Child
        || plain_region(l.regions[i]) by {
        assert(i == 0 || i == 1 || i == 2);
    }
    assert forall|k: int| 0 <= k < l.interest_bytes.len() implies is_non_ws(#[trigger] l.interest_bytes[k]) by {
        assert(k == 0 || k == 1 || k == 2);
    }
    assert(l.interest_bytes[0] == 10u8);
}

proof fn lemma_lines_asciidoc()
    ensures
        line_language(asciidoc_view()),
{
    let l = asciidoc_view();
    lemma_newline_free(seq![47u8, 47u8, 47u8, 47u8]);
    lemma_newline_free(seq![47u8, 47u8]);
    assert forall|i: int| 0 <= i < l.regions.len() implies (#[trigger] l.regions[i]).kind is Child
        || plain_region(l.regions[i]) by {
        assert(i == 0 || i == 1);
    }
    assert forall|k: int| 0 <= k < l.interest_bytes.len() implies is_non_ws(#[trigger] l.interest_bytes[k]) by {
        assert(k == 0 || k == 1);
    }
    assert(l.interest_bytes[0] == 10u8);
}

proof fn lemma_lines_assembly()
    ensures
        line_language(assembly_view()),
{
    let l = assembly_view();
    lemma_newline_free(seq![59u8]);
    lemma_newline_free(seq![34u8]);
    lemma_newline_free(seq![39u8]);
    assert forall|i: int| 0 <= i < l.regions.len() implies (#[trigger] l.regions[i]).kind is Child
        || plain_region(l.regions[i]) by {
        assert(i == 0 || i == 1 || i == 2);
    }
    assert forall|k: int| 0 <= k < l.interest_bytes.len() implies is_non_ws(#[trigger] l.interest_bytes[k]) by {
        assert(k == 0 || k == 1 || k == 2 || k == 3);
    }
    assert(l.interest_bytes[0] == 10u8);
}

proof fn lemma_lines_autohotkey()
    ensures
        line_language(autohotkey_view()),
{
    let l = autohotkey_view();
    lemma_newline_free(seq![47u8, 42u8]);
    lemma_newline_free(seq![42u8, 47u8]);
    lemma_newline_free(seq![59u8]);
    assert forall|i: int| 0 <= i < l.regions.len() implies (#[trigger] l.regions[i]).kind is Child
        || plain_region(l.regions[i]) by {
        assert(i == 0 || i == 1);
    }
    assert forall|k: int| 0 <= k < l.interest_bytes.len() implies is_non_ws(#[trigger] l.interest_bytes[k]) by {
        assert(k == 0 || k == 1 || k == 2);
    }
    assert(l.interest_bytes[0] == 10u8);
}

proof fn lemma_lines_autoconf()
    ensures
        line_language(autoconf_view()),
{
    let l = autoconf_view();
    lemma_newline_free(seq![100u8, 110u8, 108u8]);
    lemma_newline_free(seq![35u8]);
    assert forall|i: int| 0 <= i < l.regions.len() implies (#[trigger] l.regions[i]).kind is Child
        || plain_region(l.regions[i]) by {
        assert(i == 0 || i == 1);
    }
    assert forall|k: int| 0 <= k < l.interest_bytes.len() implies is_non_ws(#[trigger] l.interest_bytes[k]) by {
        assert(k == 0 || k == 1 || k == 2);
    }
    assert(l.interest_bytes[0] == 10u8);
}

proof fn lemma_lines_automake()
    ensures
        line_language(automake_view()),
{
    let l = automake_view();
    lemma_newline_free(seq![35u8]);
    assert forall|i: int| 0 <= i < l.regions.len() implies (#[trigger] l.regions[i]).kind is Child
        || plain_region(l.regions[i]) by {
        assert(i == 0);
    }
    assert forall|k: int| 0 <= k < l.interest_bytes.len() implies is_non_ws(#[trigger] l.interest_bytes[k]) by {
        assert(k == 0 || k == 1);
    }
    assert(l.interest_bytes[0] == 10u8);
}

proof fn lemma_lines_bash()
    ensures
        line_language(bash_view()),
{
    let l = bash_view();
    lemma_newline_free(seq![35u8]);
    lemma_newline_free(seq![34u8]);
    lemma_newline_free(seq![39u8]);
    assert forall|i: int| 0 <= i < l.regions.len() implies (#[trigger] l.regions[i]).kind is Child
        || plain_region(l.regions[i]) by {
        assert(i == 0 || i == 1 || i == 2);
    }
    assert forall|k: int| 0 <= k < l.interest_bytes.len() implies is_non_ws(#[trigger] l.interest_bytes[k]) by {
        assert(k == 0 || k == 1 || k == 2 || k == 3);
    }
    assert(l.interest_bytes[0] == 10u8);
}

proof fn lemma_lines_batch()
    ensures
        line_language(batch_view()),
{
    let l = batch_view();
    lemma_newline_free(seq![82u8, 69u8, 77u8]);
    lemma_newline_free(seq![58u8, 58u8]);
    assert forall|i: int| 0 <= i < l.regions.len() implies (#[trigger] l.regions[i]).kind is Child
        || plain_region(l.regions[i]) by {
        assert(i == 0 || i == 1);
    }
    assert forall|k: int| 0 <= k < l.interest_bytes.len() implies is_non_ws(#[trigger] l.interest_bytes[k]) by {
        assert(k == 0 || k == 1 || k == 2);
    }
    assert(l.interest_bytes[0] == 10u8);
}

proof fn lemma_lines_bean()
    ensures
        line_language(bean_view()),
{
    let l = bean_view();
    lemma_newline_free(seq![59u8]);
    lemma_newline_free(seq![34u8]);
    assert forall|i: int| 0 <= i < l.regions.len() implies (#[trigger] l.regions[i]).kind is Child
        || plain_region(l.regions[i]) by {
        assert(i == 0 || i == 1);
    }
    assert forall|k: int| 0 <= k < l.interest_bytes.len() implies is_non_ws(#[trigger] l.interest_bytes[k]) by {
        assert(k == 0 || k == 1 || k == 2);
    }
    assert(l.interest_bytes[0] == 10u8);
}

proof fn lemma_lines_brightscript()
    ensures
        line_language(brightscript_view()),
{
    let l = brightscript_view();
    lemma_newline_free(seq![82u8, 69u8, 77u8]);
    lemma_newline_free(seq![39u8]);
    lemma_newline_free(seq![34u8]);
    assert forall|i: int| 0 <= i < l.regions.len() implies (#[trigger] l.regions[i]).kind is Child
        || plain_region(l.regions[i]) by {
        assert(i == 0 || i == 1 || i == 2);
    }
    assert forall|k: int| 0 <= k < l.interest_bytes.len() implies is_non_ws(#[trigger] l.interest_bytes[k]) by {
        assert(k == 0 || k == 1 || k == 2 || k == 3);
    }
    assert(l.interest_bytes[0] == 10u8);
}

proof fn lemma_lines_c()
    ensures
        line_language(c_view()),
{
    let l = c_view();
    lemma_newline_free(seq![47u8, 47u8]);
    lemma_newline_free(seq![47u8, 42u8]);
    lemma_newline_free(seq![42u8, 47u8]);
    lemma_newline_free(seq![34u8]);
    assert forall|i: int| 0 <= i < l.regions.len() implies (#[trigger] l.regions[i]).kind is Child
        || plain_region(l.regions[i]) by {
        assert(i == 0 || i == 1 || i == 2);
    }
    assert forall|k: int| 0 <= k < l.interest_bytes.len() implies is_non_ws(#[trigger] l.interest_bytes[k]) by {
        assert(k == 0 || k == 1 || k == 2);
    }
    assert(l.interest_bytes[0] == 10u8);
}

proof fn lemma_lines_c_header()
    ensures
        line_language(c_header_view()),
{
    let l = c_header_view();
    lemma_newline_free(seq![47u8, 47u8]);
    lemma_newline_free(seq![47u8, 42u8]);
    lemma_newline_free(seq![42u8, 47u8]);
    lemma_newline_free(seq![34u8]);
    assert forall|i: int| 0 <= i < l.regions.len() implies (#[trigger] l.regions[i]).kind is Child
        || plain_region(l.regions[i]) by {
        assert(i == 0 || i == 1 || i == 2);
    }
    assert forall|k: int| 0 <= k < l.interest_bytes.len() implies is_non_ws(#[trigger] l.interest_bytes[k]) by {
        assert(k == 0 || k == 1 || k == 2);
    }
    assert(l.interest_bytes[0] == 10u8);
}

proof fn lemma_lines_c_shell()
    ensures
        line_language(c_shell_view()),
{
    let l = c_shell_view();
    lemma_newline_free(seq![35u8]);
    assert forall|i: int| 0 <= i < l.regions.len() implies (#[trigger] l.regions[i]).kind is Child
        || plain_region(l.regions[i]) by {
        assert(i == 0);
    }
    assert forall|k: int| 0 <= k < l.interest_bytes.len() implies is_non_ws(#[trigger] l.interest_bytes[k]) by {
        assert(k == 0 || k == 1);
    }
    assert(l.interest_bytes[0] == 10u8);
}

proof fn lemma_lines_csharp()
    ensures
        line_language(csharp_view()),
{
    let l = csharp_view();
    lemma_newline_free(seq![47u8, 47u8]);
    lemma_newline_free(seq![47u8, 42u8]);
    lemma_newline_free(seq![42u8, 47u8]);
    lemma_newline_free(seq![64u8, 34u8]);
    lemma_newline_free(seq![34u8]);
    assert forall|i: int| 0 <= i < l.regions.len() implies (#[trigger] l.regions[i]).kind is Child
        || plain_region(l.regions[i]) by {
        assert(i == 0 || i == 1 || i == 2 || i == 3);
    }
    assert forall|k: int| 0 <= k < l.interest_bytes.len() implies is_non_ws(#[trigger] l.interest_bytes[k]) by {
        assert(k == 0 || k == 1 || k == 2 || k == 3);
    }
    assert(l.interest_bytes[0] == 10u8);
}

proof fn lemma_lines_cpp()
    ensures
        line_language(cpp_view()),
{
    let l = cpp_view();
    lemma_newline_free(seq![47u8, 47u8]);
    lemma_newline_free(seq![47u8, 42u8]);
    lemma_newline_free(seq![42u8, 47u8]);
    lemma_newline_free(seq![34u8]);
    assert forall|i: int| 0 <= i < l.regions.len() implies (#[trigger] l.regions[i]).kind is Child
        || plain_region(l.regions[i]) by {
        assert(i == 0 || i == 1 || i == 2);
    }
    assert forall|k: int| 0 <= k < l.interest_bytes.len() implies is_non_ws(#[trigger] l.interest_bytes[k]) by {
        assert(k == 0 || k == 1 || k == 2);
    }
    assert(l.interest_bytes[0] == 10u8);
}

proof fn lemma_lines_cpp_header()
    ensures
        line_language(cpp_header_view()),
{
    let l = cpp_header_view();
    lemma_newline_free(seq![47u8, 47u8]);
    lemma_newline_free(seq![47u8, 42u8]);
    lemma_newline_free(seq![42u8, 47u8]);
    lemma_newline_free(seq![34u8]);
    assert forall|i: int| 0 <= i < l.regions.len() implies (#[trigger] l.regions[i]).kind is Child
        || plain_region(l.regions[i]) by {
        assert(i == 0 || i == 1 || i == 2);
    }
    assert forall|k: int| 0 <= k < l.interest_bytes.len() implies is_non_ws(#[trigger] l.interest_bytes[k]) by {
        assert(k == 0 || k == 1 || k == 2);
    }
    assert(l.interest_bytes[0] == 10u8);
}

proof fn lemma_lines_cmake()
    ensures
        line_language(cmake_view()),
{
    let l = cmake_view();
    lemma_newline_free(seq![35u8]);
    lemma_newline_free(seq![34u8]);
    assert forall|i: int| 0 <= i < l.regions.len() implies (#[trigger] l.regions[i]).kind is Child
        || plain_region(l.regions[i]) by {
        assert(i == 0 || i == 1);
    }
    assert forall|k: int| 0 <= k < l.interest_bytes.len() implies is_non_ws(#[trigger] l.interest_bytes[k]) by {
        assert(k == 0 || k == 1 || k == 2);
    }
    assert(l.interest_bytes[0] == 10u8);
}

proof fn lemma_lines_cobol()
    ensures
        line_language(cobol_view()),
{
    let l = cobol_view();
    lemma_newline_free(seq![42u8]);
    assert forall|i: int| 0 <= i < l.regions.len() implies (#[trigger] l.regions[i]).kind is Child
        || plain_region(l.regions[i]) by {
        assert(i == 0);
    }
    assert forall|k: int| 0 <= k < l.interest_bytes.len() implies is_non_ws(#[trigger] l.interest_bytes[k]) by {
        assert(k == 0 || k == 1);
    }
    assert(l.interest_bytes[0] == 10u8);
}

proof fn lemma_lines_css()
    ensures
        line_language(css_view()),
{
    let l = css_view();
    lemma_newline_free(seq![47u8, 42u8]);
    lemma_newline_free(seq![42u8, 47u8]);
    lemma_newline_free(seq![34u8]);
    lemma_newline_free(seq![39u8]);
    assert forall|i: int| 0 <= i < l.regions.len() implies (#[trigger] l.regions[i]).kind is Child
        || plain_region(l.regions[i]) by {
        assert(i == 0 || i == 1 || i == 2);
    }
    assert forall|k: int| 0 <= k < l.interest_bytes.len() implies is_non_ws(#[trigger] l.interest_bytes[k]) by {
        assert(k == 0 || k == 1 || k == 2 || k == 3);
    }
    assert(l.interest_bytes[0] == 10u8);
}

proof fn lemma_lines_cabal()
    ensures
        line_language(cabal_view()),
{
    let l = cabal_view();
    lemma_newline_free(seq![45u8, 45u8]);
    lemma_newline_free(seq![123u8, 45u8]);
    lemma_newline_free(seq![45u8, 125u8]);
    assert forall|i: int| 0 <= i < l.regions.len() implies (#[trigger] l.regions[i]).kind is Child
        || plain_region(l.regions[i]) by {
        assert(i == 0 || i == 1);
    }
    assert forall|k: int| 0 <= k < l.interest_bytes.len() implies is_non_ws(#[trigger] l.interest_bytes[k]) by {
        assert(k == 0 || k == 1 || k == 2);
    }
    assert(l.interest_bytes[0] == 10u8);
}

proof fn lemma_lines_cassius()
    ensures
        line_language(cassius_view()),
{
    let l = cassius_view();
    lemma_newline_free(seq![47u8, 47u8]);
    lemma_newline_free(seq![47u8, 42u8]);
    lemma_newline_free(seq![42u8, 47u8]);
    lemma_newline_free(seq![34u8]);
    lemma_newline_free(seq![39u8]);
    assert forall|i: int| 0 <= i < l.regions.len() implies (#[trigger] l.regions[i]).kind is Child
        || plain_region(l.regions[i]) by {
        assert(i == 0 || i == 1 || i == 2 || i == 3);
    }
    assert forall|k: int| 0 <= k < l.interest_bytes.len() implies is_non_ws(#[trigger] l.interest_bytes[k]) by {
        assert(k == 0 || k == 1 || k == 2 || k == 3);
    }
    assert(l.interest_bytes[0] == 10u8);
}

proof fn lemma_lines_ceylon()
    ensures
        line_language(ceylon_view()),
{
    let l = ceylon_view();
    lemma_newline_free(seq![34u8, 34u8, 34u8]);
    lemma_newline_free(seq![47u8, 47u8]);
    lemma_newline_free(seq![47u8, 42u8]);
    lemma_newline_free(seq![42u8, 47u8]);
    lemma_newline_free(seq![34u8]);
    assert forall|i: int| 0 <= i < l.regions.len() implies (#[trigger] l.regions[i]).kind is Child
        || plain_region(l.regions[i]) by {
        assert(i == 0 || i == 1 || i == 2 || i == 3);
    }
    assert forall|k: int| 0 <= k < l.interest_bytes.len() implies is_non_ws(#[trigger] l.interest_bytes[k]) by {
        assert(k == 0 || k == 1 || k == 2);
    }
    assert(l.interest_bytes[0] == 10u8);
}

proof fn lemma_lines_clojure()
    ensures
        line_language(clojure_view()),
{
    let l = clojure_view();
    lemma_newline_free(seq![59u8]);
    lemma_newline_free(seq![34u8]);
    assert forall|i: int| 0 <= i < l.regions.len() implies (#[trigger] l.regions[i]).kind is Child
        || plain_region(l.regions[i]) by {
        assert(i == 0 || i == 1);
    }
    assert forall|k: int| 0 <= k < l.interest_bytes.len() implies is_non_ws(#[trigger] l.interest_bytes[k]) by {
        assert(k == 0 || k == 1 || k == 2);
    }
    assert(l.interest_bytes[0] == 10u8);
}

proof fn lemma_lines_clojurec()
    ensures
        line_language(clojurec_view()),
{
    let l = clojurec_view();
    lemma_newline_free(seq![59u8]);
    lemma_newline_free(seq![34u8]);
    assert forall|i: int| 0 <= i < l.regions.len() implies (#[trigger] l.regions[i]).kind is Child
        || plain_region(l.regions[i]) by {
        assert(i == 0 || i == 1);
    }
    assert forall|k: int| 0 <= k < l.interest_bytes.len() implies is_non_ws(#[trigger] l.interest_bytes[k]) by {
        assert(k == 0 || k == 1 || k == 2);
    }
    assert(l.interest_bytes[0] == 10u8);
}

proof fn lemma_lines_clojurescript()
    ensures
        line_language(clojurescript_view()),
{
    let l = clojurescript_view();
    lemma_newline_free(seq![59u8]);
    lemma_newline_free(seq![34u8]);
    assert forall|i: int| 0 <= i < l.regions.len() implies (#[trigger] l.regions[i]).kind is Child
        || plain_region(l.regions[i]) by {
        assert(i == 0 || i == 1);
    }
    assert forall|k: int| 0 <= k < l.interest_bytes.len() implies is_non_ws(#[trigger] l.interest_bytes[k]) by {
        assert(k == 0 || k == 1 || k == 2);
    }
    assert(l.interest_bytes[0] == 10u8);
}

proof fn lemma_lines_codeql()
    ensures
        line_language(codeql_view()),
{
    let l = codeql_view();
    lemma_newline_free(seq![47u8, 47u8]);
    lemma_newline_free(seq![47u8, 42u8]);
    lemma_newline_free(seq![42u8, 47u8]);
    lemma_newline_free(seq![34u8]);
    assert forall|i: int| 0 <= i < l.regions.len() implies (#[trigger] l.regions[i]).kind is Child
        || plain_region(l.regions[i]) by {
        assert(i == 0 || i == 1 || i == 2);
    }
    assert forall|k: int| 0 <= k < l.interest_bytes.len() implies is_non_ws(#[trigger] l.interest_bytes[k]) by {
        assert(k == 0 || k == 1 || k == 2);
    }
    assert(l.interest_bytes[0] == 10u8);
}

proof fn lemma_lines_coffeescript()
    ensures
        line_language(coffeescript_view()),
{
    let l = coffeescript_view();
    lemma_newline_free(seq![35u8, 35u8, 35u8]);
    lemma_newline_free(seq![35u8]);
    lemma_newline_free(seq![34u8]);
    lemma_newline_free(seq![39u8]);
    assert forall|i: int| 0 <= i < l.regions.len() implies (#[trigger] l.regions[i]).kind is Child
        || plain_region(l.regions[i]) by {
        assert(i == 0 || i == 1 || i == 2 || i == 3);
    }
    assert forall|k: int| 0 <= k < l.interest_bytes.len() implies is_non_ws(#[trigger] l.interest_bytes[k]) by {
        assert(k == 0 || k == 1 || k == 2 || k == 3);
    }
    assert(l.interest_bytes[0] == 10u8);
}

proof fn lemma_lines_cogent()
    ensures
        line_language(cogent_view()),
{
    let l = cogent_view();
    lemma_newline_free(seq![45u8, 45u8]);
    assert forall|i: int| 0 <= i < l.regions.len() implies (#[trigger] l.regions[i]).kind is Child
        || plain_region(l.regions[i]) by {
        assert(i == 0);
    }
    assert forall|k: int| 0 <= k < l.interest_bytes.len() implies is_non_ws(#[trigger] l.interest_bytes[k]) by {
        assert(k == 0 || k == 1);
    }
    assert(l.interest_bytes[0] == 10u8);
}

proof fn lemma_lines_coldfusion()
    ensures
        line_language(coldfusion_view()),
{
    let l = coldfusion_view();
    lemma_newline_free(seq![60u8, 33u8, 45u8, 45u8, 45u8]);
    lemma_newline_free(seq![45u8, 45u8, 45u8, 62u8]);
    lemma_newline_free(seq![34u8]);
    lemma_newline_free(seq![39u8]);
    assert forall|i: int| 0 <= i < l.regions.len() implies (#[trigger] l.regions[i]).kind is Child
        || plain_region(l.regions[i]) by {
        assert(i == 0 || i == 1 || i == 2);
    }
    assert forall|k: int| 0 <= k < l.interest_bytes.len() implies is_non_ws(#[trigger] l.interest_bytes[k]) by {
        assert(k == 0 || k == 1 || k == 2 || k == 3);
    }
    assert(l.interest_bytes[0] == 10u8);
}

proof fn lemma_lines_coldfusion_cfscript()
    ensures
        line_language(coldfusion_cfscript_view()),
{
    let l = coldfusion_cfscript_view();
    lemma_newline_free(seq![47u8, 47u8]);
    lemma_newline_free(seq![47u8, 42u8]);
    lemma_newline_free(seq![42u8, 47u8]);
    lemma_newline_free(seq![34u8]);
    assert forall|i: int| 0 <= i < l.regions.len() implies (#[trigger] l.regions[i]).kind is Child
        || plain_region(l.regions[i]) by {
        assert(i == 0 || i == 1 || i == 2);
    }
    assert forall|k: int| 0 <= k < l.interest_bytes.len() implies is_non_ws(#[trigger] l.interest_bytes[k]) by {
        assert(k == 0 || k == 1 || k == 2);
    }
    assert(l.interest_bytes[0] == 10u8);
}

proof fn lemma_lines_coq()
    ensures
        line_language(coq_view()),
{
    let l = coq_view();
    lemma_newline_free(seq![40u8, 42u8]);
    lemma_newline_free(seq![42u8, 41u8]);
    lemma_newline_free(seq![34u8]);
    assert forall|i: int| 0 <= i < l.regions.len() implies (#[trigger] l.regions[i]).kind is Child
        || plain_region(l.regions[i]) by {
        assert(i == 0 || i == 1);
    }
    assert forall|k: int| 0 <= k < l.interest_bytes.len() implies is_non_ws(#[trigger] l.interest_bytes[k]) by {
        assert(k == 0 || k == 1 || k == 2);
    }
    assert(l.interest_bytes[0] == 10u8);
}

proof fn lemma_lines_crystal()
    ensures
        line_language(crystal_view()),
{
    let l = crystal_view();
    lemma_newline_free(seq![35u8]);
    lemma_newline_free(seq![34u8]);
    lemma_newline_free(seq![39u8]);
    assert forall|i: int| 0 <= i < l.regions.len() implies (#[trigger] l.regions[i]).kind is Child
        || plain_region(l.regions[i]) by {
        assert(i == 0 || i == 1 || i == 2);
    }
    assert forall|k: int| 0 <= k < l.interest_bytes.len() implies is_non_ws(#[trigger] l.interest_bytes[k]) by {
        assert(k == 0 || k == 1 || k == 2 || k == 3);
    }
    assert(l.interest_bytes[0] == 10u8);
}

proof fn lemma_lines_d()
    ensures
        line_language(d_view()),
{
    let l = d_view();
    lemma_newline_free(seq![47u8, 47u8]);
    lemma_newline_free(seq![47u8, 42u8]);
    lemma_newline_free(seq![42u8, 47u8]);
    lemma_newline_free(seq![47u8, 43u8]);
    lemma_newline_free(seq![43u8, 47u8]);
    lemma_newline_free(seq![34u8]);
    lemma_newline_free(seq![39u8]);
    assert forall|i: int| 0 <= i < l.regions.len() implies (#[trigger] l.regions[i]).kind is Child
        || plain_region(l.regions[i]) by {
        assert(i == 0 || i == 1 || i == 2 || i == 3 || i == 4);
    }
    assert forall|k: int| 0 <= k < l.interest_bytes.len() implies is_non_ws(#[trigger] l.interest_bytes[k]) by {
        assert(k == 0 || k == 1 || k == 2 || k == 3);
    }
    assert(l.interest_bytes[0] == 10u8);
}

proof fn lemma_lines_daml()
    ensures
        line_language(daml_view()),
{
    let l = daml_view();
    lemma_newline_free(seq![45u8, 45u8, 32u8]);
    lemma_newline_free(seq![123u8, 45u8]);
    lemma_newline_free(seq![45u8, 125u8]);
    assert forall|i: int| 0 <= i < l.regions.len() implies (#[trigger] l.regions[i]).kind is Child
        || plain_region(l.regions[i]) by {
        assert(i == 0 || i == 1);
    }
    assert forall|k: int| 0 <= k < l.interest_bytes.len() implies is_non_ws(#[trigger] l.interest_bytes[k]) by {
        assert(k == 0 || k == 1 || k == 2);
    }
    assert(l.interest_bytes[0] == 10u8);
}

proof fn lemma_lines_dart()
    ensures
        line_language(dart_view()),
{
    let l = dart_view();
    lemma_newline_free(seq![34u8, 34u8, 34u8]);
    lemma_newline_free(seq![39u8, 39u8, 39u8]);
    lemma_newline_free(seq![47u8, 47u8]);
    lemma_newline_free(seq![47u8, 42u8]);
    lemma_newline_free(seq![42u8, 47u8]);
    lemma_newline_free(seq![34u8]);
    lemma_newline_free(seq![39u8]);
    assert forall|i: int| 0 <= i < l.regions.len() implies (#[trigger] l.regions[i]).kind is Child
        || plain_region(l.regions[i]) by {
        assert(i == 0 || i == 1 || i == 2 || i == 3 || i == 4 || i == 5);
    }
    assert forall|k: int| 0 <= k < l.interest_bytes.len() implies is_non_ws(#[trigger] l.interest_bytes[k]) by {
        assert(k == 0 || k == 1 || k == 2 || k == 3);
    }
    assert(l.interest_bytes[0] == 10u8);
}

proof fn lemma_lines_device_tree()
    ensures
        line_language(device_tree_view()),
{
    let l = device_tree_view();
    lemma_newline_free(seq![47u8, 47u8]);
    lemma_newline_free(seq![47u8, 42u8]);
    lemma_newline_free(seq![42u8, 47u8]);
    lemma_newline_free(seq![34u8]);
    assert forall|i: int| 0 <= i < l.regions.len() implies (#[trigger] l.regions[i]).kind is Child
        || plain_region(l.regions[i]) by {
        assert(i == 0 || i == 1 || i == 2);
    }
    assert forall|k: int| 0 <= k < l.interest_bytes.len() implies is_non_ws(#[trigger] l.interest_bytes[k]) by {
        assert(k == 0 || k == 1 || k == 2);
    }
    assert(l.interest_bytes[0] == 10u8);
}

proof fn lemma_lines_dhall()
    ensures
        line_language(dhall_view()),
{
    let l = dhall_view();
    lemma_newline_free(seq![45u8, 45u8]);
    lemma_newline_free(seq![123u8, 45u8]);
    lemma_newline_free(seq![45u8, 125u8]);
    lemma_newline_free(seq![39u8, 39u8]);
    lemma_newline_free(seq![34u8]);
    assert forall|i: int| 0 <= i < l.regions.len() implies (#[trigger] l.regions[i]).kind is Child
        || plain_region(l.regions[i]) by {
        assert(i == 0 || i == 1 || i == 2 || i == 3);
    }
    assert forall|k: int| 0 <= k < l.interest_bytes.len() implies is_non_ws(#[trigger] l.interest_bytes[k]) by {
        assert(k == 0 || k == 1 || k == 2 || k == 3 || k == 4);
    }
    assert(l.interest_bytes[0] == 10u8);
}

proof fn lemma_lines_dockerfile()
    ensures
        line_language(dockerfile_view()),
{
    let l = dockerfile_view();
    lemma_newline_free(seq![35u8]);
    lemma_newline_free(seq![34u8]);
    lemma_newline_free(seq![39u8]);
    assert forall|i: int| 0 <= i < l.regions.len() implies (#[trigger] l.regions[i]).kind is Child
        || plain_region(l.regions[i]) by {
        assert(i == 0 || i == 1 || i == 2);
    }
    assert forall|k: int| 0 <= k < l.interest_bytes.len() implies is_non_ws(#[trigger] l.interest_bytes[k]) by {
        assert(k == 0 || k == 1 || k == 2 || k == 3);
    }
    assert(l.interest_bytes[0] == 10u8);
}

proof fn lemma_lines_dream_maker()
    ensures
        line_language(dream_maker_view()),
{
    let l = dream_maker_view();
    lemma_newline_free(seq![47u8, 47u8]);
    lemma_newline_free(seq![47u8, 42u8]);
    lemma_newline_free(seq![42u8, 47u8]);
    lemma_newline_free(seq![123u8, 34u8]);
    lemma_newline_free(seq![34u8, 125u8]);
    lemma_newline_free(seq![34u8]);
    lemma_newline_free(seq![39u8]);
    assert forall|i: int| 0 <= i < l.regions.len() implies (#[trigger] l.regions[i]).kind is Child
        || plain_region(l.regions[i]) by {
        assert(i == 0 || i == 1 || i == 2 || i == 3 || i == 4);
    }
    assert forall|k: int| 0 <= k < l.interest_bytes.len() implies is_non_ws(#[trigger] l.interest_bytes[k]) by {
        assert(k == 0 || k == 1 || k == 2 || k == 3 || k == 4);
    }
    assert(l.interest_bytes[0] == 10u8);
}

proof fn lemma_lines_dust_js()
    ensures
        line_language(dust_js_view()),
{
    let l = dust_js_view();
    lemma_newline_free(seq![123u8, 33u8]);
    lemma_newline_free(seq![33u8, 125u8]);
    assert forall|i: int| 0 <= i < l.regions.len() implies (#[trigger] l.regions[i]).kind is Child
        || plain_region(l.regions[i]) by {
        assert(i == 0);
    }
    assert forall|k: int| 0 <= k < l.interest_bytes.len() implies is_non_ws(#[trigger] l.interest_bytes[k]) by {
        assert(k == 0 || k == 1);
    }
    assert(l.interest_bytes[0] == 10u8);
}

proof fn lemma_lines_edn()
    ensures
        line_language(edn_view()),
{
    let l = edn_view();
    lemma_newline_free(seq![59u8]);
    assert forall|i: int| 0 <= i < l.regions.len() implies (#[trigger] l.regions[i]).kind is Child
        || plain_region(l.regions[i]) by {
        assert(i == 0);
    }
    assert forall|k: int| 0 <= k < l.interest_bytes.len() implies is_non_ws(#[trigger] l.interest_bytes[k]) by {
        assert(k == 0 || k == 1);
    }
    assert(l.interest_bytes[0] == 10u8);
}

proof fn lemma_lines_elixir()
    ensures
        line_language(elixir_view()),
{
    let l = elixir_view();
    lemma_newline_free(seq![34u8, 34u8, 34u8]);
    lemma_newline_free(seq![39u8, 39u8, 39u8]);
    lemma_newline_free(seq![35u8]);
    lemma_newline_free(seq![34u8]);
    lemma_newline_free(seq![39u8]);
    assert forall|i: int| 0 <= i < l.regions.len() implies (#[trigger] l.regions[i]).kind is Child
        || plain_region(l.regions[i]) by {
        assert(i == 0 || i == 1 || i == 2 || i == 3 || i == 4);
    }
    assert forall|k: int| 0 <= k < l.interest_bytes.len() implies is_non_ws(#[trigger] l.interest_bytes[k]) by {
        assert(k == 0 || k == 1 || k == 2 || k == 3);
    }
    assert(l.interest_bytes[0] == 10u8);
}

proof fn lemma_lines_elm()
    ensures
        line_language(elm_view()),
{
    let l = elm_view();
    lemma_newline_free(seq![45u8, 45u8]);
    lemma_newline_free(seq![123u8, 45u8]);
    lemma_newline_free(seq![45u8, 125u8]);
    assert forall|i: int| 0 <= i < l.regions.len() implies (#[trigger] l.regions[i]).kind is Child
        || plain_region(l.regions[i]) by {
        assert(i == 0 || i == 1);
    }
    assert forall|k: int| 0 <= k < l.interest_bytes.len() implies is_non_ws(#[trigger] l.interest_bytes[k]) by {
        assert(k == 0 || k == 1 || k == 2);
    }
    assert(l.interest_bytes[0] == 10u8);
}

proof fn lemma_lines_elvish()
    ensures
        line_language(elvish_view()),
{
    let l = elvish_view();
    lemma_newline_free(seq![35u8]);
    lemma_newline_free(seq![34u8]);
    lemma_newline_free(seq![39u8]);
    assert forall|i: int| 0 <= i < l.regions.len() implies (#[trigger] l.regions[i]).kind is Child
        || plain_region(l.regions[i]) by {
        assert(i == 0 || i == 1 || i == 2);
    }
    assert forall|k: int| 0 <= k < l.interest_bytes.len() implies is_non_ws(#[trigger] l.interest_bytes[k]) by {
        assert(k == 0 || k == 1 || k == 2 || k == 3);
    }
    assert(l.interest_bytes[0] == 10u8);
}

proof fn lemma_lines_emacs_dev_env()
    ensures
        line_language(emacs_dev_env_view()),
{
    let l = emacs_dev_env_view();
    lemma_newline_free(seq![59u8]);
    assert forall|i: int| 0 <= i < l.regions.len() implies (#[trigger] l.regions[i]).kind is Child
        || plain_region(l.regions[i]) by {
        assert(i == 0);
    }
    assert forall|k: int| 0 <= k < l.interest_bytes.len() implies is_non_ws(#[trigger] l.interest_bytes[k]) by {
        assert(k == 0 || k == 1);
    }
    assert(l.interest_bytes[0] == 10u8);
}

proof fn lemma_lines_emacs_lisp()
    ensures
        line_language(emacs_lisp_view()),
{
    let l = emacs_lisp_view();
    lemma_newline_free(seq![59u8]);
    assert forall|i: int| 0 <= i < l.regions.len() implies (#[trigger] l.regions[i]).kind is Child
        || plain_region(l.regions[i]) by {
        assert(i == 0);
    }
    assert forall|k: int| 0 <= k < l.interest_bytes.len() implies is_non_ws(#[trigger] l.interest_bytes[k]) by {
        assert(k == 0 || k == 1);
    }
    assert(l.interest_bytes[0] == 10u8);
}

proof fn lemma_lines_emojicode()
    ensures
        line_language(emojicode_view()),
{
    let l = emojicode_view();
    lemma_newline_free(seq![240u8, 159u8, 146u8, 173u8, 240u8, 159u8, 148u8, 156u8]);
    lemma_newline_free(seq![240u8, 159u8, 148u8, 154u8, 240u8, 159u8, 146u8, 173u8]);
    lemma_newline_free(seq![226u8, 157u8, 140u8, 240u8, 159u8, 148u8, 164u8]);
    lemma_newline_free(seq![240u8, 159u8, 146u8, 173u8]);
    lemma_newline_free(seq![240u8, 159u8, 147u8, 151u8]);
    lemma_newline_free(seq![240u8, 159u8, 147u8, 152u8]);
    assert forall|i: int| 0 <= i < l.regions.len() implies (#[trigger] l.regions[i]).kind is Child
        || plain_region(l.regions[i]) by {
        assert(i == 0 || i == 1 || i == 2 || i == 3 || i == 4);
    }
    assert forall|k: int| 0 <= k < l.interest_bytes.len() implies is_non_ws(#[trigger] l.interest_bytes[k]) by {
        assert(k == 0 || k == 1 || k == 2);
    }
    assert(l.interest_bytes[0] == 10u8);
}

proof fn lemma_lines_erlang()
    ensures
        line_language(erlang_view()),
{
    let l = erlang_view();
    lemma_newline_free(seq![37u8]);
    assert forall|i: int| 0 <= i < l.regions.len() implies (#[trigger] l.regions[i]).kind is Child
        || plain_region(l.regions[i]) by {
        assert(i == 0);
    }
    assert forall|k: int| 0 <= k < l.interest_bytes.len() implies is_non_ws(#[trigger] l.interest_bytes[k]) by {
        assert(k == 0 || k == 1);
    }
    assert(l.interest_bytes[0] == 10u8);
}

proof fn lemma_lines_fsharp()
    ensures
        line_language(fsharp_view()),
{
    let l = fsharp_view();
    lemma_newline_free(seq![47u8, 47u8]);
    lemma_newline_free(seq![40u8, 42u8]);
    lemma_newline_free(seq![42u8, 41u8]);
    lemma_newline_free(seq![64u8, 34u8]);
    lemma_newline_free(seq![34u8]);
    assert forall|i: int| 0 <= i < l.regions.len() implies (#[trigger] l.regions[i]).kind is Child
        || plain_region(l.regions[i]) by {
        assert(i == 0 || i == 1 || i == 2 || i == 3);
    }
    assert forall|k: int| 0 <= k < l.interest_bytes.len() implies is_non_ws(#[trigger] l.interest_bytes[k]) by {
        assert(k == 0 || k == 1 || k == 2 || k == 3 || k == 4);
    }
    assert(l.interest_bytes[0] == 10u8);
}

proof fn lemma_lines_f()
    ensures
        line_language(f_view()),
{
    let l = f_view();
    lemma_newline_free(seq![47u8, 47u8]);
    lemma_newline_free(seq![40u8, 42u8]);
    lemma_newline_free(seq![42u8, 41u8]);
    lemma_newline_free(seq![34u8]);
    assert forall|i: int| 0 <= i < l.regions.len() implies (#[trigger] l.regions[i]).kind is Child
        || plain_region(l.regions[i]) by {
        assert(i == 0 || i == 1 || i == 2);
    }
    assert forall|k: int| 0 <= k < l.interest_bytes.len() implies is_non_ws(#[trigger] l.interest_bytes[k]) by {
        assert(k == 0 || k == 1 || k == 2 || k == 3);
    }
    assert(l.interest_bytes[0] == 10u8);
}

proof fn lemma_lines_fen()
    ensures
        line_language(fen_view()),
{
    let l = fen_view();
    assert forall|k: int| 0 <= k < l.interest_bytes.len() implies is_non_ws(#[trigger] l.interest_bytes[k]) by {
        assert(k == 0);
    }
    assert(l.interest_bytes[0] == 10u8);
}

proof fn lemma_lines_fortran_legacy()
    ensures
        line_language(fortran_legacy_view()),
{
    let l = fortran_legacy_view();
    lemma_newline_free(seq![99u8]);
    lemma_newline_free(seq![67u8]);
    lemma_newline_free(seq![33u8]);
    lemma_newline_free(seq![42u8]);
    lemma_newline_free(seq![34u8]);
    lemma_newline_free(seq![39u8]);
    assert forall|i: int| 0 <= i < l.regions.len() implies (#[trigger] l.regions[i]).kind is Child
        || plain_region(l.regions[i]) by {
        assert(i == 0 || i == 1 || i == 2 || i == 3 || i == 4 || i == 5);
    }
    assert forall|k: int| 0 <= k < l.interest_bytes.len() implies is_non_ws(#[trigger] l.interest_bytes[k]) by {
        assert(k == 0 || k == 1 || k == 2 || k == 3 || k == 4 || k == 5 || k == 6);
    }
    assert(l.interest_bytes[0] == 10u8);
}

proof fn lemma_lines_fortran_modern()
    ensures
        line_language(fortran_modern_view()),
{
    let l = fortran_modern_view();
    lemma_newline_free(seq![33u8]);
    lemma_newline_free(seq![34u8]);
    assert forall|i: int| 0 <= i < l.regions.len() implies (#[trigger] l.regions[i]).kind is Child
        || plain_region(l.regions[i]) by {
        assert(i == 0 || i == 1);
    }
    assert forall|k: int| 0 <= k < l.interest_bytes.len() implies is_non_ws(#[trigger] l.interest_bytes[k]) by {
        assert(k == 0 || k == 1 || k == 2);
    }
    assert(l.interest_bytes[0] == 10u8);
}

proof fn lemma_lines_fish()
    ensures
        line_language(fish_view()),
{
    let l = fish_view();
    lemma_newline_free(seq![35u8]);
    lemma_newline_free(seq![34u8]);
    lemma_newline_free(seq![39u8]);
    assert forall|i: int| 0 <= i < l.regions.len() implies (#[trigger] l.regions[i]).kind is Child
        || plain_region(l.regions[i]) by {
        assert(i == 0 || i == 1 || i == 2);
    }
    assert forall|k: int| 0 <= k < l.interest_bytes.len() implies is_non_ws(#[trigger] l.interest_bytes[k]) by {
        assert(k == 0 || k == 1 || k == 2 || k == 3);
    }
    assert(l.interest_bytes[0] == 10u8);
}

proof fn lemma_lines_flatbuffers_schema()
    ensures
        line_language(flatbuffers_schema_view()),
{
    let l = flatbuffers_schema_view();
    lemma_newline_free(seq![47u8, 47u8]);
    lemma_newline_free(seq![47u8, 42u8]);
    lemma_newline_free(seq![42u8, 47u8]);
    lemma_newline_free(seq![34u8]);
    assert forall|i: int| 0 <= i < l.regions.len() implies (#[trigger] l.regions[i]).kind is Child
        || plain_region(l.regions[i]) by {
        assert(i == 0 || i == 1 || i == 2);
    }
    assert forall|k: int| 0 <= k < l.interest_bytes.len() implies is_non_ws(#[trigger] l.interest_bytes[k]) by {
        assert(k == 0 || k == 1 || k == 2);
    }
    assert(l.interest_bytes[0] == 10u8);
}

proof fn lemma_lines_forth()
    ensures
        line_language(forth_view()),
{
    let l = forth_view();
    lemma_newline_free(seq![40u8, 32u8]);
    lemma_newline_free(seq![41u8]);
    lemma_newline_free(seq![92u8]);
    assert forall|i: int| 0 <= i < l.regions.len() implies (#[trigger] l.regions[i]).kind is Child
        || plain_region(l.regions[i]) by {
        assert(i == 0 || i == 1);
    }
    assert forall|k: int| 0 <= k < l.interest_bytes.len() implies is_non_ws(#[trigger] l.interest_bytes[k]) by {
        assert(k == 0 || k == 1 || k == 2);
    }
    assert(l.interest_bytes[0] == 10u8);
}

proof fn lemma_lines_freemarker()
    ensures
        line_language(freemarker_view()),
{
    let l = freemarker_view();
    lemma_newline_free(seq![60u8, 35u8, 45u8, 45u8]);
    lemma_newline_free(seq![45u8, 45u8, 62u8]);
    assert forall|i: int| 0 <= i < l.regions.len() implies (#[trigger] l.regions[i]).kind is Child
        || plain_region(l.regions[i]) by {
        assert(i == 0);
    }
    assert forall|k: int| 0 <= k < l.interest_bytes.len() implies is_non_ws(#[trigger] l.interest_bytes[k]) by {
        assert(k == 0 || k == 1);
    }
    assert(l.interest_bytes[0] == 10u8);
}

proof fn lemma_lines_futhark()
    ensures
        line_language(futhark_view()),
{
    let l = futhark_view();
    lemma_newline_free(seq![45u8, 45u8]);
    assert forall|i: int| 0 <= i < l.regions.len() implies (#[trigger] l.regions[i]).kind is Child
        || plain_region(l.regions[i]) by {
        assert(i == 0);
    }
    assert forall|k: int| 0 <= k < l.interest_bytes.len() implies is_non_ws(#[trigger] l.interest_bytes[k]) by {
        assert(k == 0 || k == 1);
    }
    assert(l.interest_bytes[0] == 10u8);
}

proof fn lemma_lines_gdb_script()
    ensures
        line_language(gdb_script_view()),
{
    let l = gdb_script_view();
    lemma_newline_free(seq![35u8]);
    assert forall|i: int| 0 <= i < l.regions.len() implies (#[trigger] l.regions[i]).kind is Child
        || plain_region(l.regions[i]) by {
        assert(i == 0);
    }
    assert forall|k: int| 0 <= k < l.interest_bytes.len() implies is_non_ws(#[trigger] l.interest_bytes[k]) by {
        assert(k == 0 || k == 1);
    }
    assert(l.interest_bytes[0] == 10u8);
}

proof fn lemma_lines_gdscript()
    ensures
        line_language(gdscript_view()),
{
    let l = gdscript_view();
    lemma_newline_free(seq![34u8, 34u8, 34u8]);
    lemma_newline_free(seq![35u8]);
    lemma_newline_free(seq![34u8]);
    lemma_newline_free(seq![39u8]);
    assert forall|i: int| 0 <= i < l.regions.len() implies (#[trigger] l.regions[i]).kind is Child
        || plain_region(l.regions[i]) by {
        assert(i == 0 || i == 1 || i == 2 || i == 3);
    }
    assert forall|k: int| 0 <= k < l.interest_bytes.len() implies is_non_ws(#[trigger] l.interest_bytes[k]) by {
        assert(k == 0 || k == 1 || k == 2 || k == 3);
    }
    assert(l.interest_bytes[0] == 10u8);
}

proof fn lemma_lines_glsl()
    ensures
        line_language(glsl_view()),
{
    let l = glsl_view();
    lemma_newline_free(seq![47u8, 47u8]);
    lemma_newline_free(seq![47u8, 42u8]);
    lemma_newline_free(seq![42u8, 47u8]);
    lemma_newline_free(seq![34u8]);
    assert forall|i: int| 0 <= i < l.regions.len() implies (#[trigger] l.regions[i]).kind is Child
        || plain_region(l.regions[i]) by {
        assert(i == 0 || i == 1 || i == 2);
    }
    assert forall|k: int| 0 <= k < l.interest_bytes.len() implies is_non_ws(#[trigger] l.interest_bytes[k]) by {
        assert(k == 0 || k == 1 || k == 2);
    }
    assert(l.interest_bytes[0] == 10u8);
}

proof fn lemma_lines_gnu_style_assembly()
    ensures
        line_language(gnu_style_assembly_view()),
{
    let l = gnu_style_assembly_view();
    lemma_newline_free(seq![47u8, 47u8]);
    lemma_newline_free(seq![47u8, 42u8]);
    lemma_newline_free(seq![42u8, 47u8]);
    lemma_newline_free(seq![34u8]);
    assert forall|i: int| 0 <= i < l.regions.len() implies (#[trigger] l.regions[i]).kind is Child
        || plain_region(l.regions[i]) by {
        assert(i == 0 || i == 1 || i == 2);
    }
    assert forall|k: int| 0 <= k < l.interest_bytes.len() implies is_non_ws(#[trigger] l.interest_bytes[k]) by {
        assert(k == 0 || k == 1 || k == 2);
    }
    assert(l.interest_bytes[0] == 10u8);
}

proof fn lemma_lines_gherkin_cucumber()
    ensures
        line_language(gherkin_cucumber_view()),
{
    let l = gherkin_cucumber_view();
    lemma_newline_free(seq![35u8]);
    assert forall|i: int| 0 <= i < l.regions.len() implies (#[trigger] l.regions[i]).kind is Child
        || plain_region(l.regions[i]) by {
        assert(i == 0);
    }
    assert forall|k: int| 0 <= k < l.interest_bytes.len() implies is_non_ws(#[trigger] l.interest_bytes[k]) by {
        assert(k == 0 || k == 1);
    }
    assert(l.interest_bytes[0] == 10u8);
}

proof fn lemma_lines_gleam()
    ensures
        line_language(gleam_view()),
{
    let l = gleam_view();
    lemma_newline_free(seq![47u8, 47u8, 47u8, 47u8]);
    lemma_newline_free(seq![47u8, 47u8, 47u8]);
    lemma_newline_free(seq![47u8, 47u8]);
    lemma_newline_free(seq![34u8]);
    assert forall|i: int| 0 <= i < l.regions.len() implies (#[trigger] l.regions[i]).kind is Child
        || plain_region(l.regions[i]) by {
        assert(i == 0 || i == 1 || i == 2 || i == 3);
    }
    assert forall|k: int| 0 <= k < l.interest_bytes.len() implies is_non_ws(#[trigger] l.interest_bytes[k]) by {
        assert(k == 0 || k == 1 || k == 2);
    }
    assert(l.interest_bytes[0] == 10u8);
}

proof fn lemma_lines_go()
    ensures
        line_language(go_view()),
{
    let l = go_view();
    lemma_newline_free(seq![47u8, 47u8]);
    lemma_newline_free(seq![47u8, 42u8]);
    lemma_newline_free(seq![42u8, 47u8]);
    lemma_newline_free(seq![34u8]);
    assert forall|i: int| 0 <= i < l.regions.len() implies (#[trigger] l.regions[i]).kind is Child
        || plain_region(l.regions[i]) by {
        assert(i == 0 || i == 1 || i == 2);
    }
    assert forall|k: int| 0 <= k < l.interest_bytes.len() implies is_non_ws(#[trigger] l.interest_bytes[k]) by {
        assert(k == 0 || k == 1 || k == 2);
    }
    assert(l.interest_bytes[0] == 10u8);
}

proof fn lemma_lines_go_html()
    ensures
        line_language(go_html_view()),
{
    let l = go_html_view();
    lemma_newline_free(seq![60u8, 33u8, 45u8, 45u8]);
    lemma_newline_free(seq![45u8, 45u8, 62u8]);
    lemma_newline_free(seq![123u8, 123u8, 47u8, 42u8]);
    lemma_newline_free(seq![42u8, 47u8, 125u8, 125u8]);
    lemma_newline_free(seq![34u8]);
    lemma_newline_free(seq![39u8]);
    assert forall|i: int| 0 <= i < l.regions.len() implies (#[trigger] l.regions[i]).kind is Child
        || plain_region(l.regions[i]) by {
        assert(i == 0 || i == 1 || i == 2 || i == 3);
    }
    assert forall|k: int| 0 <= k < l.interest_bytes.len() implies is_non_ws(#[trigger] l.interest_bytes[k]) by {
        assert(k == 0 || k == 1 || k == 2 || k == 3 || k == 4);
    }
    assert(l.interest_bytes[0] == 10u8);
}

proof fn lemma_lines_graphql()
    ensures
        line_language(graphql_view()),
{
    let l = graphql_view();
    lemma_newline_free(seq![34u8, 34u8, 34u8]);
    lemma_newline_free(seq![35u8]);
    lemma_newline_free(seq![34u8]);
    assert forall|i: int| 0 <= i < l.regions.len() implies (#[trigger] l.regions[i]).kind is Child
        || plain_region(l.regions[i]) by {
        assert(i == 0 || i == 1 || i == 2);
    }
    assert forall|k: int| 0 <= k < l.interest_bytes.len() implies is_non_ws(#[trigger] l.interest_bytes[k]) by {
        assert(k == 0 || k == 1 || k == 2);
    }
    assert(l.interest_bytes[0] == 10u8);
}

proof fn lemma_lines_groovy()
    ensures
        line_language(groovy_view()),
{
    let l = groovy_view();
    lemma_newline_free(seq![47u8, 47u8]);
    lemma_newline_free(seq![47u8, 42u8]);
    lemma_newline_free(seq![42u8, 47u8]);
    lemma_newline_free(seq![34u8]);
    assert forall|i: int| 0 <= i < l.regions.len() implies (#[trigger] l.regions[i]).kind is Child
        || plain_region(l.regions[i]) by {
        assert(i == 0 || i == 1 || i == 2);
    }
    assert forall|k: int| 0 <= k < l.interest_bytes.len() implies is_non_ws(#[trigger] l.interest_bytes[k]) by {
        assert(k == 0 || k == 1 || k == 2);
    }
    assert(l.interest_bytes[0] == 10u8);
}

proof fn lemma_lines_gwion()
    ensures
        line_language(gwion_view()),
{
    let l = gwion_view();
    lemma_newline_free(seq![35u8, 33u8]);
    lemma_newline_free(seq![34u8]);
    assert forall|i: int| 0 <= i < l.regions.len() implies (#[trigger] l.regions[i]).kind is Child
        || plain_region(l.regions[i]) by {
        assert(i == 0 || i == 1);
    }
    assert forall|k: int| 0 <= k < l.interest_bytes.len() implies is_non_ws(#[trigger] l.interest_bytes[k]) by {
        assert(k == 0 || k == 1 || k == 2);
    }
    assert(l.interest_bytes[0] == 10u8);
}

proof fn lemma_lines_hcl()
    ensures
        line_language(hcl_view()),
{
    let l = hcl_view();
    lemma_newline_free(seq![47u8, 47u8]);
    lemma_newline_free(seq![47u8, 42u8]);
    lemma_newline_free(seq![42u8, 47u8]);
    lemma_newline_free(seq![35u8]);
    lemma_newline_free(seq![34u8]);
    assert forall|i: int| 0 <= i < l.regions.len() implies (#[trigger] l.regions[i]).kind is Child
        || plain_region(l.regions[i]) by {
        assert(i == 0 || i == 1 || i == 2 || i == 3);
    }
    assert forall|k: int| 0 <= k < l.interest_bytes.len() implies is_non_ws(#[trigger] l.interest_bytes[k]) by {
        assert(k == 0 || k == 1 || k == 2 || k == 3);
    }
    assert(l.interest_bytes[0] == 10u8);
}

proof fn lemma_lines_hex()
    ensures
        line_language(hex_view()),
{
    let l = hex_view();
    assert forall|k: int| 0 <= k < l.interest_bytes.len() implies is_non_ws(#[trigger] l.interest_bytes[k]) by {
        assert(k == 0);
    }
    assert(l.interest_bytes[0] == 10u8);
}

proof fn lemma_lines_hlsl()
    ensures
        line_language(hlsl_view()),
{
    let l = hlsl_view();
    lemma_newline_free(seq![47u8, 47u8]);
    lemma_newline_free(seq![47u8, 42u8]);
    lemma_newline_free(seq![42u8, 47u8]);
    lemma_newline_free(seq![34u8]);
    assert forall|i: int| 0 <= i < l.regions.len() implies (#[trigger] l.regions[i]).kind is Child
        || plain_region(l.regions[i]) by {
        assert(i == 0 || i == 1 || i == 2);
    }
    assert forall|k: int| 0 <= k < l.interest_bytes.len() implies is_non_ws(#[trigger] l.interest_bytes[k]) by {
        assert(k == 0 || k == 1 || k == 2);
    }
    assert(l.interest_bytes[0] == 10u8);
}

proof fn lemma_lines_html()
    ensures
        line_language(html_view()),
{
    let l = html_view();
    lemma_newline_free(seq![60u8, 33u8, 45u8, 45u8]);
    lemma_newline_free(seq![45u8, 45u8, 62u8]);
    assert forall|i: int| 0 <= i < l.regions.len() implies (#[trigger] l.regions[i]).kind is Child
        || plain_region(l.regions[i]) by {
        assert(i == 0 || i == 1 || i == 2);
    }
    assert forall|k: int| 0 <= k < l.interest_bytes.len() implies is_non_ws(#[trigger] l.interest_bytes[k]) by {
        assert(k == 0 || k == 1);
    }
    assert(l.interest_bytes[0] == 10u8);
}

proof fn lemma_lines_hamlet()
    ensures
        line_language(hamlet_view()),
{
    let l = hamlet_view();
    lemma_newline_free(seq![60u8, 33u8, 45u8, 45u8]);
    lemma_newline_free(seq![45u8, 45u8, 62u8]);
    lemma_newline_free(seq![34u8]);
    lemma_newline_free(seq![39u8]);
    assert forall|i: int| 0 <= i < l.regions.len() implies (#[trigger] l.regions[i]).kind is Child
        || plain_region(l.regions[i]) by {
        assert(i == 0 || i == 1 || i == 2);
    }
    assert forall|k: int| 0 <= k < l.interest_bytes.len() implies is_non_ws(#[trigger] l.interest_bytes[k]) by {
        assert(k == 0 || k == 1 || k == 2 || k == 3);
    }
    assert(l.interest_bytes[0] == 10u8);
}

proof fn lemma_lines_handlebars()
    ensures
        line_language(handlebars_view()),
{
    let l = handlebars_view();
    lemma_newline_free(seq![60u8, 33u8, 45u8, 45u8]);
    lemma_newline_free(seq![45u8, 45u8, 62u8]);
    lemma_newline_free(seq![123u8, 123u8, 33u8]);
    lemma_newline_free(seq![125u8, 125u8]);
    lemma_newline_free(seq![34u8]);
    lemma_newline_free(seq![39u8]);
    assert forall|i: int| 0 <= i < l.regions.len() implies (#[trigger] l.regions[i]).kind is Child
        || plain_region(l.regions[i]) by {
        assert(i == 0 || i == 1 || i == 2 || i == 3);
    }
    assert forall|k: int| 0 <= k < l.interest_bytes.len() implies is_non_ws(#[trigger] l.interest_bytes[k]) by {
        assert(k == 0 || k == 1 || k == 2 || k == 3 || k == 4);
    }
    assert(l.interest_bytes[0] == 10u8);
}

proof fn lemma_lines_happy()
    ensures
        line_language(happy_view()),
{
    let l = happy_view();
    assert forall|k: int| 0 <= k < l.interest_bytes.len() implies is_non_ws(#[trigger] l.interest_bytes[k]) by {
        assert(k == 0);
    }
    assert(l.interest_bytes[0] == 10u8);
}

proof fn lemma_lines_haskell()
    ensures
        line_language(haskell_view()),
{
    let l = haskell_view();
    lemma_newline_free(seq![45u8, 45u8]);
    lemma_newline_free(seq![123u8, 45u8]);
    lemma_newline_free(seq![45u8, 125u8]);
    assert forall|i: int| 0 <= i < l.regions.len() implies (#[trigger] l.regions[i]).kind is Child
        || plain_region(l.regions[i]) by {
        assert(i == 0 || i == 1);
    }
    assert forall|k: int| 0 <= k < l.interest_bytes.len() implies is_non_ws(#[trigger] l.interest_bytes[k]) by {
        assert(k == 0 || k == 1 || k == 2);
    }
    assert(l.interest_bytes[0] == 10u8);
}

proof fn lemma_lines_haxe()
    ensures
        line_language(haxe_view()),
{
    let l = haxe_view();
    lemma_newline_free(seq![47u8, 47u8]);
    lemma_newline_free(seq![47u8, 42u8]);
    lemma_newline_free(seq![42u8, 47u8]);
    lemma_newline_free(seq![34u8]);
    lemma_newline_free(seq![39u8]);
    assert forall|i: int| 0 <= i < l.regions.len() implies (#[trigger] l.regions[i]).kind is Child
        || plain_region(l.regions[i]) by {
        assert(i == 0 || i == 1 || i == 2 || i == 3);
    }
    assert forall|k: int| 0 <= k < l.interest_bytes.len() implies is_non_ws(#[trigger] l.interest_bytes[k]) by {
        assert(k == 0 || k == 1 || k == 2 || k == 3);
    }
    assert(l.interest_bytes[0] == 10u8);
}

proof fn lemma_lines_headache()
    ensures
        line_language(headache_view()),
{
    let l = headache_view();
    lemma_newline_free(seq![47u8, 47u8]);
    lemma_newline_free(seq![47u8, 42u8]);
    lemma_newline_free(seq![42u8, 47u8]);
    lemma_newline_free(seq![34u8]);
    assert forall|i: int| 0 <= i < l.regions.len() implies (#[trigger] l.regions[i]).kind is Child
        || plain_region(l.regions[i]) by {
        assert(i == 0 || i == 1 || i == 2);
    }
    assert forall|k: int| 0 <= k < l.interest_bytes.len() implies is_non_ws(#[trigger] l.interest_bytes[k]) by {
        assert(k == 0 || k == 1 || k == 2);
    }
    assert(l.interest_bytes[0] == 10u8);
}

proof fn lemma_lines_holyc()
    ensures
        line_language(holyc_view()),
{
    let l = holyc_view();
    lemma_newline_free(seq![47u8, 47u8]);
    lemma_newline_free(seq![47u8, 42u8]);
    lemma_newline_free(seq![42u8, 47u8]);
    lemma_newline_free(seq![34u8]);
    assert forall|i: int| 0 <= i < l.regions.len() implies (#[trigger] l.regions[i]).kind is Child
        || plain_region(l.regions[i]) by {
        assert(i == 0 || i == 1 || i == 2);
    }
    assert forall|k: int| 0 <= k < l.interest_bytes.len() implies is_non_ws(#[trigger] l.interest_bytes[k]) by {
        assert(k == 0 || k == 1 || k == 2);
    }
    assert(l.interest_bytes[0] == 10u8);
}

proof fn lemma_lines_ini()
    ensures
        line_language(ini_view()),
{
    let l = ini_view();
    lemma_newline_free(seq![59u8]);
    lemma_newline_free(seq![35u8]);
    assert forall|i: int| 0 <= i < l.regions.len() implies (#[trigger] l.regions[i]).kind is Child
        || plain_region(l.regions[i]) by {
        assert(i == 0 || i == 1);
    }
    assert forall|k: int| 0 <= k < l.interest_bytes.len() implies is_non_ws(#[trigger] l.interest_bytes[k]) by {
        assert(k == 0 || k == 1 || k == 2);
    }
    assert(l.interest_bytes[0] == 10u8);
}

proof fn lemma_lines_idris()
    ensures
        line_language(idris_view()),
{
    let l = idris_view();
    lemma_newline_free(seq![34u8, 34u8, 34u8]);
    lemma_newline_free(seq![45u8, 45u8]);
    lemma_newline_free(seq![123u8, 45u8]);
    lemma_newline_free(seq![45u8, 125u8]);
    lemma_newline_free(seq![34u8]);
    assert forall|i: int| 0 <= i < l.regions.len() implies (#[trigger] l.regions[i]).kind is Child
        || plain_region(l.regions[i]) by {
        assert(i == 0 || i == 1 || i == 2 || i == 3);
    }
    assert forall|k: int| 0 <= k < l.interest_bytes.len() implies is_non_ws(#[trigger] l.interest_bytes[k]) by {
        assert(k == 0 || k == 1 || k == 2 || k == 3);
    }
    assert(l.interest_bytes[0] == 10u8);
}

proof fn lemma_lines_intel_hex()
    ensures
        line_language(intel_hex_view()),
{
    let l = intel_hex_view();
    assert forall|k: int| 0 <= k < l.interest_bytes.len() implies is_non_ws(#[trigger] l.interest_bytes[k]) by {
        assert(k == 0);
    }
    assert(l.interest_bytes[0] == 10u8);
}

proof fn lemma_lines_isabelle()
    ensures
        line_language(isabelle_view()),
{
    let l = isabelle_view();
    lemma_newline_free(seq![92u8, 60u8, 111u8, 112u8, 101u8, 110u8, 62u8]);
    lemma_newline_free(seq![92u8, 60u8, 99u8, 108u8, 111u8, 115u8, 101u8, 62u8]);
    lemma_newline_free(seq![226u8, 128u8, 185u8]);
    lemma_newline_free(seq![226u8, 128u8, 186u8]);
    lemma_newline_free(seq![45u8, 45u8]);
    lemma_newline_free(seq![123u8, 42u8]);
    lemma_newline_free(seq![42u8, 125u8]);
    lemma_newline_free(seq![40u8, 42u8]);
    lemma_newline_free(seq![42u8, 41u8]);
    lemma_newline_free(seq![39u8, 39u8]);
    assert forall|i: int| 0 <= i < l.regions.len() implies (#[trigger] l.regions[i]).kind is Child
        || plain_region(l.regions[i]) by {
        assert(i == 0 || i == 1 || i == 2 || i == 3 || i == 4 || i == 5);
    }
    assert forall|k: int| 0 <= k < l.interest_bytes.len() implies is_non_ws(#[trigger] l.interest_bytes[k]) by {
        assert(k == 0 || k == 1 || k == 2 || k == 3 || k == 4 || k == 5 || k == 6);
    }
    assert(l.interest_bytes[0] == 10u8);
}

proof fn lemma_lines_jai()
    ensures
        line_language(jai_view()),
{
    let l = jai_view();
    lemma_newline_free(seq![47u8, 47u8]);
    lemma_newline_free(seq![47u8, 42u8]);
    lemma_newline_free(seq![42u8, 47u8]);
    lemma_newline_free(seq![34u8]);
    assert forall|i: int| 0 <= i < l.regions.len() implies (#[trigger] l.regions[i]).kind is Child
        || plain_region(l.regions[i]) by {
        assert(i == 0 || i == 1 || i == 2);
    }
    assert forall|k: int| 0 <= k < l.interest_bytes.len() implies is_non_ws(#[trigger] l.interest_bytes[k]) by {
        assert(k == 0 || k == 1 || k == 2);
    }
    assert(l.interest_bytes[0] == 10u8);
}

proof fn lemma_lines_json()
    ensures
        line_language(json_view()),
{
    let l = json_view();
    lemma_newline_free(seq![34u8]);
    assert forall|i: int| 0 <= i < l.regions.len() implies (#[trigger] l.regions[i]).kind is Child
        || plain_region(l.regions[i]) by {
        assert(i == 0);
    }
    assert forall|k: int| 0 <= k < l.interest_bytes.len() implies is_non_ws(#[trigger] l.interest_bytes[k]) by {
        assert(k == 0 || k == 1);
    }
    assert(l.interest_bytes[0] == 10u8);
}

proof fn lemma_lines_jsx()
    ensures
        line_language(jsx_view()),
{
    let l = jsx_view();
    lemma_newline_free(seq![47u8, 47u8]);
    lemma_newline_free(seq![47u8, 42u8]);
    lemma_newline_free(seq![42u8, 47u8]);
    lemma_newline_free(seq![34u8]);
    lemma_newline_free(seq![39u8]);
    lemma_newline_free(seq![96u8]);
    assert forall|i: int| 0 <= i < l.regions.len() implies (#[trigger] l.regions[i]).kind is Child
        || plain_region(l.regions[i]) by {
        assert(i == 0 || i == 1 || i == 2 || i == 3 || i == 4);
    }
    assert forall|k: int| 0 <= k < l.interest_bytes.len() implies is_non_ws(#[trigger] l.interest_bytes[k]) by {
        assert(k == 0 || k == 1 || k == 2 || k == 3 || k == 4);
    }
    assert(l.interest_bytes[0] == 10u8);
}

proof fn lemma_lines_java()
    ensures
        line_language(java_view()),
{
    let l = java_view();
    lemma_newline_free(seq![47u8, 47u8]);
    lemma_newline_free(seq![47u8, 42u8]);
    lemma_newline_free(seq![42u8, 47u8]);
    lemma_newline_free(seq![34u8]);
    assert forall|i: int| 0 <= i < l.regions.len() implies (#[trigger] l.regions[i]).kind is Child
        || plain_region(l.regions[i]) by {
        assert(i == 0 || i == 1 || i == 2);
    }
    assert forall|k: int| 0 <= k < l.interest_bytes.len() implies is_non_ws(#[trigger] l.interest_bytes[k]) by {
        assert(k == 0 || k == 1 || k == 2);
    }
    assert(l.interest_bytes[0] == 10u8);
}

proof fn lemma_lines_javascript()
    ensures
        line_language(javascript_view()),
{
    let l = javascript_view();
    lemma_newline_free(seq![47u8, 47u8]);
    lemma_newline_free(seq![47u8, 42u8]);
    lemma_newline_free(seq![42u8, 47u8]);
    lemma_newline_free(seq![34u8]);
    lemma_newline_free(seq![39u8]);
    lemma_newline_free(seq![96u8]);
    assert forall|i: int| 0 <= i < l.regions.len() implies (#[trigger] l.regions[i]).kind is Child
        || plain_region(l.regions[i]) by {
        assert(i == 0 || i == 1 || i == 2 || i == 3 || i == 4);
    }
    assert forall|k: int| 0 <= k < l.interest_bytes.len() implies is_non_ws(#[trigger] l.interest_bytes[k]) by {
        assert(k == 0 || k == 1 || k == 2 || k == 3 || k == 4);
    }
    assert(l.interest_bytes[0] == 10u8);
}

proof fn lemma_lines_jsonnet()
    ensures
        line_language(jsonnet_view()),
{
    let l = jsonnet_view();
    lemma_newline_free(seq![47u8, 47u8]);
    lemma_newline_free(seq![47u8, 42u8]);
    lemma_newline_free(seq![42u8, 47u8]);
    lemma_newline_free(seq![35u8]);
    lemma_newline_free(seq![34u8]);
    lemma_newline_free(seq![39u8]);
    assert forall|i: int| 0 <= i < l.regions.len() implies (#[trigger] l.regions[i]).kind is Child
        || plain_region(l.regions[i]) by {
        assert(i == 0 || i == 1 || i == 2 || i == 3 || i == 4);
    }
    assert forall|k: int| 0 <= k < l.interest_bytes.len() implies is_non_ws(#[trigger] l.interest_bytes[k]) by {
        assert(k == 0 || k == 1 || k == 2 || k == 3 || k == 4);
    }
    assert(l.interest_bytes[0] == 10u8);
}

proof fn lemma_lines_julia()
    ensures
        line_language(julia_view()),
{
    let l = julia_view();
    lemma_newline_free(seq![34u8, 34u8, 34u8]);
    lemma_newline_free(seq![35u8, 61u8]);
    lemma_newline_free(seq![61u8, 35u8]);
    lemma_newline_free(seq![35u8]);
    lemma_newline_free(seq![34u8]);
    assert forall|i: int| 0 <= i < l.regions.len() implies (#[trigger] l.regions[i]).kind is Child
        || plain_region(l.regions[i]) by {
        assert(i == 0 || i == 1 || i == 2 || i == 3);
    }
    assert forall|k: int| 0 <= k < l.interest_bytes.len() implies is_non_ws(#[trigger] l.interest_bytes[k]) by {
        assert(k == 0 || k == 1 || k == 2);
    }
    assert(l.interest_bytes[0] == 10u8);
}

proof fn lemma_lines_julius()
    ensures
        line_language(julius_view()),
{
    let l = julius_view();
    lemma_newline_free(seq![47u8, 47u8]);
    lemma_newline_free(seq![47u8, 42u8]);
    lemma_newline_free(seq![42u8, 47u8]);
    lemma_newline_free(seq![34u8]);
    lemma_newline_free(seq![39u8]);
    lemma_newline_free(seq![96u8]);
    assert forall|i: int| 0 <= i < l.regions.len() implies (#[trigger] l.regions[i]).kind is Child
        || plain_region(l.regions[i]) by {
        assert(i == 0 || i == 1 || i == 2 || i == 3 || i == 4);
    }
    assert forall|k: int| 0 <= k < l.interest_bytes.len() implies is_non_ws(#[trigger] l.interest_bytes[k]) by {
        assert(k == 0 || k == 1 || k == 2 || k == 3 || k == 4);
    }
    assert(l.interest_bytes[0] == 10u8);
}

proof fn lemma_lines_k()
    ensures
        line_language(k_view()),
{
    let l = k_view();
    lemma_newline_free(seq![47u8]);
    lemma_newline_free(seq![34u8]);
    assert forall|i: int| 0 <= i < l.regions.len() implies (#[trigger] l.regions[i]).kind is Child
        || plain_region(l.regions[i]) by {
        assert(i == 0 || i == 1);
    }
    assert forall|k: int| 0 <= k < l.interest_bytes.len() implies is_non_ws(#[trigger] l.interest_bytes[k]) by {
        assert(k == 0 || k == 1 || k == 2);
    }
    assert(l.interest_bytes[0] == 10u8);
}

proof fn lemma_lines_kakoune_script()
    ensures
        line_language(kakoune_script_view()),
{
    let l = kakoune_script_view();
    lemma_newline_free(seq![35u8]);
    lemma_newline_free(seq![34u8]);
    lemma_newline_free(seq![39u8]);
    assert forall|i: int| 0 <= i < l.regions.len() implies (#[trigger] l.regions[i]).kind is Child
        || plain_region(l.regions[i]) by {
        assert(i == 0 || i == 1 || i == 2);
    }
    assert forall|k: int| 0 <= k < l.interest_bytes.len() implies is_non_ws(#[trigger] l.interest_bytes[k]) by {
        assert(k == 0 || k == 1 || k == 2 || k == 3);
    }
    assert(l.interest_bytes[0] == 10u8);
}

proof fn lemma_lines_kotlin()
    ensures
        line_language(kotlin_view()),
{
    let l = kotlin_view();
    lemma_newline_free(seq![34u8, 34u8, 34u8]);
    lemma_newline_free(seq![47u8, 47u8]);
    lemma_newline_free(seq![47u8, 42u8]);
    lemma_newline_free(seq![42u8, 47u8]);
    lemma_newline_free(seq![34u8]);
    assert forall|i: int| 0 <= i < l.regions.len() implies (#[trigger] l.regions[i]).kind is Child
        || plain_region(l.regions[i]) by {
        assert(i == 0 || i == 1 || i == 2 || i == 3);
    }
    assert forall|k: int| 0 <= k < l.interest_bytes.len() implies is_non_ws(#[trigger] l.interest_bytes[k]) by {
        assert(k == 0 || k == 1 || k == 2);
    }
    assert(l.interest_bytes[0] == 10u8);
}

proof fn lemma_lines_ld_script()
    ensures
        line_language(ld_script_view()),
{
    let l = ld_script_view();
    lemma_newline_free(seq![47u8, 47u8]);
    lemma_newline_free(seq![47u8, 42u8]);
    lemma_newline_free(seq![42u8, 47u8]);
    lemma_newline_free(seq![34u8]);
    assert forall|i: int| 0 <= i < l.regions.len() implies (#[trigger] l.regions[i]).kind is Child
        || plain_region(l.regions[i]) by {
        assert(i == 0 || i == 1 || i == 2);
    }
    assert forall|k: int| 0 <= k < l.interest_bytes.len() implies is_non_ws(#[trigger] l.interest_bytes[k]) by {
        assert(k == 0 || k == 1 || k == 2);
    }
    assert(l.interest_bytes[0] == 10u8);
}

proof fn lemma_lines_less()
    ensures
        line_language(less_view()),
{
    let l = less_view();
    lemma_newline_free(seq![47u8, 47u8]);
    lemma_newline_free(seq![47u8, 42u8]);
    lemma_newline_free(seq![42u8, 47u8]);
    lemma_newline_free(seq![34u8]);
    lemma_newline_free(seq![39u8]);
    assert forall|i: int| 0 <= i < l.regions.len() implies (#[trigger] l.regions[i]).kind is Child
        || plain_region(l.regions[i]) by {
        assert(i == 0 || i == 1 || i == 2 || i == 3);
    }
    assert forall|k: int| 0 <= k < l.interest_bytes.len() implies is_non_ws(#[trigger] l.interest_bytes[k]) by {
        assert(k == 0 || k == 1 || k == 2 || k == 3);
    }
    assert(l.interest_bytes[0] == 10u8);
}

proof fn lemma_lines_llvm()
    ensures
        line_language(llvm_view()),
{
    let l = llvm_view();
    lemma_newline_free(seq![59u8]);
    lemma_newline_free(seq![34u8]);
    lemma_newline_free(seq![39u8]);
    assert forall|i: int| 0 <= i < l.regions.len() implies (#[trigger] l.regions[i]).kind is Child
        || plain_region(l.regions[i]) by {
        assert(i == 0 || i == 1 || i == 2);
    }
    assert forall|k: int| 0 <= k < l.interest_bytes.len() implies is_non_ws(#[trigger] l.interest_bytes[k]) by {
        assert(k == 0 || k == 1 || k == 2 || k == 3);
    }
    assert(l.interest_bytes[0] == 10u8);
}

proof fn lemma_lines_lean()
    ensures
        line_language(lean_view()),
{
    let l = lean_view();
    lemma_newline_free(seq![45u8, 45u8]);
    lemma_newline_free(seq![47u8, 45u8]);
    lemma_newline_free(seq![45u8, 47u8]);
    assert forall|i: int| 0 <= i < l.regions.len() implies (#[trigger] l.regions[i]).kind is Child
        || plain_region(l.regions[i]) by {
        assert(i == 0 || i == 1);
    }
    assert forall|k: int| 0 <= k < l.interest_bytes.len() implies is_non_ws(#[trigger] l.interest_bytes[k]) by {
        assert(k == 0 || k == 1 || k == 2);
    }
    assert(l.interest_bytes[0] == 10u8);
}

proof fn lemma_lines_liquid()
    ensures
        line_language(liquid_view()),
{
    let l = liquid_view();
    lemma_newline_free(seq![123u8, 37u8, 32u8, 99u8, 111u8, 109u8, 109u8, 101u8, 110u8, 116u8, 32u8, 37u8, 125u8]);
    lemma_newline_free(seq![123u8, 37u8, 32u8, 101u8, 110u8, 100u8, 99u8, 111u8, 109u8, 109u8, 101u8, 110u8, 116u8, 32u8, 37u8, 125u8]);
    lemma_newline_free(seq![60u8, 33u8, 45u8, 45u8]);
    lemma_newline_free(seq![45u8, 45u8, 62u8]);
    lemma_newline_free(seq![34u8]);
    lemma_newline_free(seq![39u8]);
    assert forall|i: int| 0 <= i < l.regions.len() implies (#[trigger] l.regions[i]).kind is Child
        || plain_region(l.regions[i]) by {
        assert(i == 0 || i == 1 || i == 2 || i == 3);
    }
    assert forall|k: int| 0 <= k < l.interest_bytes.len() implies is_non_ws(#[trigger] l.interest_bytes[k]) by {
        assert(k == 0 || k == 1 || k == 2 || k == 3 || k == 4);
    }
    assert(l.interest_bytes[0] == 10u8);
}

proof fn lemma_lines_lisp()
    ensures
        line_language(lisp_view()),
{
    let l = lisp_view();
    lemma_newline_free(seq![35u8, 124u8]);
    lemma_newline_free(seq![124u8, 35u8]);
    lemma_newline_free(seq![59u8]);
    assert forall|i: int| 0 <= i < l.regions.len() implies (#[trigger] l.regions[i]).kind is Child
        || plain_region(l.regions[i]) by {
        assert(i == 0 || i == 1);
    }
    assert forall|k: int| 0 <= k < l.interest_bytes.len() implies is_non_ws(#[trigger] l.interest_bytes[k]) by {
        assert(k == 0 || k == 1 || k == 2);
    }
    assert(l.interest_bytes[0] == 10u8);
}

proof fn lemma_lines_livescript()
    ensures
        line_language(livescript_view()),
{
    let l = livescript_view();
    lemma_newline_free(seq![47u8, 42u8]);
    lemma_newline_free(seq![42u8, 47u8]);
    lemma_newline_free(seq![35u8]);
    lemma_newline_free(seq![34u8]);
    lemma_newline_free(seq![39u8]);
    assert forall|i: int| 0 <= i < l.regions.len() implies (#[trigger] l.regions[i]).kind is Child
        || plain_region(l.regions[i]) by {
        assert(i == 0 || i == 1 || i == 2 || i == 3);
    }
    assert forall|k: int| 0 <= k < l.interest_bytes.len() implies is_non_ws(#[trigger] l.interest_bytes[k]) by {
        assert(k == 0 || k == 1 || k == 2 || k == 3 || k == 4);
    }
    assert(l.interest_bytes[0] == 10u8);
}

proof fn lemma_lines_logtalk()
    ensures
        line_language(logtalk_view()),
{
    let l = logtalk_view();
    lemma_newline_free(seq![47u8, 42u8]);
    lemma_newline_free(seq![42u8, 47u8]);
    lemma_newline_free(seq![37u8]);
    lemma_newline_free(seq![34u8]);
    assert forall|i: int| 0 <= i < l.regions.len() implies (#[trigger] l.regions[i]).kind is Child
        || plain_region(l.regions[i]) by {
        assert(i == 0 || i == 1 || i == 2);
    }
    assert forall|k: int| 0 <= k < l.interest_bytes.len() implies is_non_ws(#[trigger] l.interest_bytes[k]) by {
        assert(k == 0 || k == 1 || k == 2 || k == 3);
    }
    assert(l.interest_bytes[0] == 10u8);
}

proof fn lemma_lines_lua()
    ensures
        line_language(lua_view()),
{
    let l = lua_view();
    lemma_newline_free(seq![45u8, 45u8, 91u8, 91u8]);
    lemma_newline_free(seq![93u8, 93u8]);
    lemma_newline_free(seq![45u8, 45u8]);
    lemma_newline_free(seq![34u8]);
    lemma_newline_free(seq![39u8]);
    assert forall|i: int| 0 <= i < l.regions.len() implies (#[trigger] l.regions[i]).kind is Child
        || plain_region(l.regions[i]) by {
        assert(i == 0 || i == 1 || i == 2 || i == 3);
    }
    assert forall|k: int| 0 <= k < l.interest_bytes.len() implies is_non_ws(#[trigger] l.interest_bytes[k]) by {
        assert(k == 0 || k == 1 || k == 2 || k == 3);
    }
    assert(l.interest_bytes[0] == 10u8);
}

proof fn lemma_lines_lucius()
    ensures
        line_language(lucius_view()),
{
    let l = lucius_view();
    lemma_newline_free(seq![47u8, 47u8]);
    lemma_newline_free(seq![47u8, 42u8]);
    lemma_newline_free(seq![42u8, 47u8]);
    lemma_newline_free(seq![34u8]);
    lemma_newline_free(seq![39u8]);
    assert forall|i: int| 0 <= i < l.regions.len() implies (#[trigger] l.regions[i]).kind is Child
        || plain_region(l.regions[i]) by {
        assert(i == 0 || i == 1 || i == 2 || i == 3);
    }
    assert forall|k: int| 0 <= k < l.interest_bytes.len() implies is_non_ws(#[trigger] l.interest_bytes[k]) by {
        assert(k == 0 || k == 1 || k == 2 || k == 3);
    }
    assert(l.interest_bytes[0] == 10u8);
}

proof fn lemma_lines_msbuild()
    ensures
        line_language(msbuild_view()),
{
    let l = msbuild_view();
    lemma_newline_free(seq![60u8, 33u8, 45u8, 45u8]);
    lemma_newline_free(seq![45u8, 45u8, 62u8]);
    lemma_newline_free(seq![34u8]);
    lemma_newline_free(seq![39u8]);
    assert forall|i: int| 0 <= i < l.regions.len() implies (#[trigger] l.regions[i]).kind is Child
        || plain_region(l.regions[i]) by {
        assert(i == 0 || i == 1 || i == 2);
    }
    assert forall|k: int| 0 <= k < l.interest_bytes.len() implies is_non_ws(#[trigger] l.interest_bytes[k]) by {
        assert(k == 0 || k == 1 || k == 2 || k == 3);
    }
    assert(l.interest_bytes[0] == 10u8);
}

proof fn lemma_lines_madlang()
    ensures
        line_language(madlang_view()),
{
    let l = madlang_view();
    lemma_newline_free(seq![123u8, 35u8]);
    lemma_newline_free(seq![35u8, 125u8]);
    lemma_newline_free(seq![35u8]);
    assert forall|i: int| 0 <= i < l.regions.len() implies (#[trigger] l.regions[i]).kind is Child
        || plain_region(l.regions[i]) by {
        assert(i == 0 || i == 1);
    }
    assert forall|k: int| 0 <= k < l.interest_bytes.len() implies is_non_ws(#[trigger] l.interest_bytes[k]) by {
        assert(k == 0 || k == 1 || k == 2);
    }
    assert(l.interest_bytes[0] == 10u8);
}

proof fn lemma_lines_makefile()
    ensures
        line_language(makefile_view()),
{
    let l = makefile_view();
    lemma_newline_free(seq![35u8]);
    assert forall|i: int| 0 <= i < l.regions.len() implies (#[trigger] l.regions[i]).kind is Child
        || plain_region(l.regions[i]) by {
        assert(i == 0);
    }
    assert forall|k: int| 0 <= k < l.interest_bytes.len() implies is_non_ws(#[trigger] l.interest_bytes[k]) by {
        assert(k == 0 || k == 1);
    }
    assert(l.interest_bytes[0] == 10u8);
}

proof fn lemma_lines_markdown()
    ensures
        line_language(markdown_view()),
{
    let l = markdown_view();
    assert forall|i: int| 0 <= i < l.regions.len() implies (#[trigger] l.regions[i]).kind is Child
        || plain_region(l.regions[i]) by {
        assert(i == 0 || i == 1);
    }
    assert forall|k: int| 0 <= k < l.interest_bytes.len() implies is_non_ws(#[trigger] l.interest_bytes[k]) by {
        assert(k == 0 || k == 1 || k == 2);
    }
    assert(l.interest_bytes[0] == 10u8);
}

proof fn lemma_lines_meson()
    ensures
        line_language(meson_view()),
{
    let l = meson_view();
    lemma_newline_free(seq![39u8, 39u8, 39u8]);
    lemma_newline_free(seq![35u8]);
    lemma_newline_free(seq![39u8]);
    assert forall|i: int| 0 <= i < l.regions.len() implies (#[trigger] l.regions[i]).kind is Child
        || plain_region(l.regions[i]) by {
        assert(i == 0 || i == 1 || i == 2);
    }
    assert forall|k: int| 0 <= k < l.interest_bytes.len() implies is_non_ws(#[trigger] l.interest_bytes[k]) by {
        assert(k == 0 || k == 1 || k == 2);
    }
    assert(l.interest_bytes[0] == 10u8);
}

proof fn lemma_lines_mint()
    ensures
        line_language(mint_view()),
{
    let l = mint_view();
    assert forall|k: int| 0 <= k < l.interest_bytes.len() implies is_non_ws(#[trigger] l.interest_bytes[k]) by {
        assert(k == 0);
    }
    assert(l.interest_bytes[0] == 10u8);
}

proof fn lemma_lines_module_definition()
    ensures
        line_language(module_definition_view()),
{
    let l = module_definition_view();
    lemma_newline_free(seq![59u8]);
    assert forall|i: int| 0 <= i < l.regions.len() implies (#[trigger] l.regions[i]).kind is Child
        || plain_region(l.regions[i]) by {
        assert(i == 0);
    }
    assert forall|k: int| 0 <= k < l.interest_bytes.len() implies is_non_ws(#[trigger] l.interest_bytes[k]) by {
        assert(k == 0 || k == 1);
    }
    assert(l.interest_bytes[0] == 10u8);
}

proof fn lemma_lines_moonscript()
    ensures
        line_language(moonscript_view()),
{
    let l = moonscript_view();
    lemma_newline_free(seq![45u8, 45u8]);
    lemma_newline_free(seq![34u8]);
    lemma_newline_free(seq![39u8]);
    assert forall|i: int| 0 <= i < l.regions.len() implies (#[trigger] l.regions[i]).kind is Child
        || plain_region(l.regions[i]) by {
        assert(i == 0 || i == 1 || i == 2);
    }
    assert forall|k: int| 0 <= k < l.interest_bytes.len() implies is_non_ws(#[trigger] l.interest_bytes[k]) by {
        assert(k == 0 || k == 1 || k == 2 || k == 3);
    }
    assert(l.interest_bytes[0] == 10u8);
}

proof fn lemma_lines_mustache()
    ensures
        line_language(mustache_view()),
{
    let l = mustache_view();
    lemma_newline_free(seq![123u8, 123u8, 33u8]);
    lemma_newline_free(seq![125u8, 125u8]);
    lemma_newline_free(seq![34u8]);
    lemma_newline_free(seq![39u8]);
    assert forall|i: int| 0 <= i < l.regions.len() implies (#[trigger] l.regions[i]).kind is Child
        || plain_region(l.regions[i]) by {
        assert(i == 0 || i == 1 || i == 2);
    }
    assert forall|k: int| 0 <= k < l.interest_bytes.len() implies is_non_ws(#[trigger] l.interest_bytes[k]) by {
        assert(k == 0 || k == 1 || k == 2 || k == 3);
    }
    assert(l.interest_bytes[0] == 10u8);
}

proof fn lemma_lines_nim()
    ensures
        line_language(nim_view()),
{
    let l = nim_view();
    lemma_newline_free(seq![34u8, 34u8, 34u8]);
    lemma_newline_free(seq![35u8]);
    lemma_newline_free(seq![34u8]);
    assert forall|i: int| 0 <= i < l.regions.len() implies (#[trigger] l.regions[i]).kind is Child
        || plain_region(l.regions[i]) by {
        assert(i == 0 || i == 1 || i == 2);
    }
    assert forall|k: int| 0 <= k < l.interest_bytes.len() implies is_non_ws(#[trigger] l.interest_bytes[k]) by {
        assert(k == 0 || k == 1 || k == 2);
    }
    assert(l.interest_bytes[0] == 10u8);
}

proof fn lemma_lines_nix()
    ensures
        line_language(nix_view()),
{
    let l = nix_view();
    lemma_newline_free(seq![47u8, 42u8]);
    lemma_newline_free(seq![42u8, 47u8]);
    lemma_newline_free(seq![35u8]);
    lemma_newline_free(seq![34u8]);
    assert forall|i: int| 0 <= i < l.regions.len() implies (#[trigger] l.regions[i]).kind is Child
        || plain_region(l.regions[i]) by {
        assert(i == 0 || i == 1 || i == 2);
    }
    assert forall|k: int| 0 <= k < l.interest_bytes.len() implies is_non_ws(#[trigger] l.interest_bytes[k]) by {
        assert(k == 0 || k == 1 || k == 2 || k == 3);
    }
    assert(l.interest_bytes[0] == 10u8);
}

proof fn lemma_lines_not_quite_perl()
    ensures
        line_language(not_quite_perl_view()),
{
    let l = not_quite_perl_view();
    lemma_newline_free(seq![61u8, 98u8, 101u8, 103u8, 105u8, 110u8]);
    lemma_newline_free(seq![61u8, 101u8, 110u8, 100u8]);
    lemma_newline_free(seq![35u8]);
    lemma_newline_free(seq![34u8]);
    lemma_newline_free(seq![39u8]);
    assert forall|i: int| 0 <= i < l.regions.len() implies (#[trigger] l.regions[i]).kind is Child
        || plain_region(l.regions[i]) by {
        assert(i == 0 || i == 1 || i == 2 || i == 3);
    }
    assert forall|k: int| 0 <= k < l.interest_bytes.len() implies is_non_ws(#[trigger] l.interest_bytes[k]) by {
        assert(k == 0 || k == 1 || k == 2 || k == 3 || k == 4);
    }
    assert(l.interest_bytes[0] == 10u8);
}

proof fn lemma_lines_ocaml()
    ensures
        line_language(ocaml_view()),
{
    let l = ocaml_view();
    lemma_newline_free(seq![40u8, 42u8]);
    lemma_newline_free(seq![42u8, 41u8]);
    lemma_newline_free(seq![34u8]);
    assert forall|i: int| 0 <= i < l.regions.len() implies (#[trigger] l.regions[i]).kind is Child
        || plain_region(l.regions[i]) by {
        assert(i == 0 || i == 1);
    }
    assert forall|k: int| 0 <= k < l.interest_bytes.len() implies is_non_ws(#[trigger] l.interest_bytes[k]) by {
        assert(k == 0 || k == 1 || k == 2);
    }
    assert(l.interest_bytes[0] == 10u8);
}

proof fn lemma_lines_objective_c()
    ensures
        line_language(objective_c_view()),
{
    let l = objective_c_view();
    lemma_newline_free(seq![47u8, 47u8]);
    lemma_newline_free(seq![47u8, 42u8]);
    lemma_newline_free(seq![42u8, 47u8]);
    lemma_newline_free(seq![34u8]);
    assert forall|i: int| 0 <= i < l.regions.len() implies (#[trigger] l.regions[i]).kind is Child
        || plain_region(l.regions[i]) by {
        assert(i == 0 || i == 1 || i == 2);
    }
    assert forall|k: int| 0 <= k < l.interest_bytes.len() implies is_non_ws(#[trigger] l.interest_bytes[k]) by {
        assert(k == 0 || k == 1 || k == 2);
    }
    assert(l.interest_bytes[0] == 10u8);
}

proof fn lemma_lines_objective_cpp()
    ensures
        line_language(objective_cpp_view()),
{
    let l = objective_cpp_view();
    lemma_newline_free(seq![47u8, 47u8]);
    lemma_newline_free(seq![47u8, 42u8]);
    lemma_newline_free(seq![42u8, 47u8]);
    lemma_newline_free(seq![34u8]);
    assert forall|i: int| 0 <= i < l.regions.len() implies (#[trigger] l.regions[i]).kind is Child
        || plain_region(l.regions[i]) by {
        assert(i == 0 || i == 1 || i == 2);
    }
    assert forall|k: int| 0 <= k < l.interest_bytes.len() implies is_non_ws(#[trigger] l.interest_bytes[k]) by {
        assert(k == 0 || k == 1 || k == 2);
    }
    assert(l.interest_bytes[0] == 10u8);
}

proof fn lemma_lines_odin()
    ensures
        line_language(odin_view()),
{
    let l = odin_view();
    lemma_newline_free(seq![47u8, 47u8]);
    lemma_newline_free(seq![47u8, 42u8]);
    lemma_newline_free(seq![42u8, 47u8]);
    lemma_newline_free(seq![34u8]);
    lemma_newline_free(seq![39u8]);
    assert forall|i: int| 0 <= i < l.regions.len() implies (#[trigger] l.regions[i]).kind is Child
        || plain_region(l.regions[i]) by {
        assert(i == 0 || i == 1 || i == 2 || i == 3);
    }
    assert forall|k: int| 0 <= k < l.interest_bytes.len() implies is_non_ws(#[trigger] l.interest_bytes[k]) by {
        assert(k == 0 || k == 1 || k == 2 || k == 3);
    }
    assert(l.interest_bytes[0] == 10u8);
}

proof fn lemma_lines_opentype_feature_file()
    ensures
        line_language(opentype_feature_file_view()),
{
    let l = opentype_feature_file_view();
    lemma_newline_free(seq![35u8]);
    assert forall|i: int| 0 <= i < l.regions.len() implies (#[trigger] l.regions[i]).kind is Child
        || plain_region(l.regions[i]) by {
        assert(i == 0);
    }
    assert forall|k: int| 0 <= k < l.interest_bytes.len() implies is_non_ws(#[trigger] l.interest_bytes[k]) by {
        assert(k == 0 || k == 1);
    }
    assert(l.interest_bytes[0] == 10u8);
}

proof fn lemma_lines_org()
    ensures
        line_language(org_view()),
{
    let l = org_view();
    lemma_newline_free(seq![35u8, 32u8]);
    assert forall|i: int| 0 <= i < l.regions.len() implies (#[trigger] l.regions[i]).kind is Child
        || plain_region(l.regions[i]) by {
        assert(i == 0);
    }
    assert forall|k: int| 0 <= k < l.interest_bytes.len() implies is_non_ws(#[trigger] l.interest_bytes[k]) by {
        assert(k == 0 || k == 1);
    }
    assert(l.interest_bytes[0] == 10u8);
}

proof fn lemma_lines_oz()
    ensures
        line_language(oz_view()),
{
    let l = oz_view();
    lemma_newline_free(seq![47u8, 42u8]);
    lemma_newline_free(seq![42u8, 47u8]);
    lemma_newline_free(seq![37u8]);
    lemma_newline_free(seq![34u8]);
    assert forall|i: int| 0 <= i < l.regions.len() implies (#[trigger] l.regions[i]).kind is Child
        || plain_region(l.regions[i]) by {
        assert(i == 0 || i == 1 || i == 2);
    }
    assert forall|k: int| 0 <= k < l.interest_bytes.len() implies is_non_ws(#[trigger] l.interest_bytes[k]) by {
        assert(k == 0 || k == 1 || k == 2 || k == 3);
    }
    assert(l.interest_bytes[0] == 10u8);
}

proof fn lemma_lines_php()
    ensures
        line_language(php_view()),
{
    let l = php_view();
    lemma_newline_free(seq![47u8, 47u8]);
    lemma_newline_free(seq![47u8, 42u8]);
    lemma_newline_free(seq![42u8, 47u8]);
    lemma_newline_free(seq![35u8]);
    lemma_newline_free(seq![34u8]);
    lemma_newline_free(seq![39u8]);
    assert forall|i: int| 0 <= i < l.regions.len() implies (#[trigger] l.regions[i]).kind is Child
        || plain_region(l.regions[i]) by {
        assert(i == 0 || i == 1 || i == 2 || i == 3 || i == 4);
    }
    assert forall|k: int| 0 <= k < l.interest_bytes.len() implies is_non_ws(#[trigger] l.interest_bytes[k]) by {
        assert(k == 0 || k == 1 || k == 2 || k == 3 || k == 4);
    }
    assert(l.interest_bytes[0] == 10u8);
}

proof fn lemma_lines_psl_assertion()
    ensures
        line_language(psl_assertion_view()),
{
    let l = psl_assertion_view();
    lemma_newline_free(seq![47u8, 47u8]);
    lemma_newline_free(seq![47u8, 42u8]);
    lemma_newline_free(seq![42u8, 47u8]);
    lemma_newline_free(seq![34u8]);
    assert forall|i: int| 0 <= i < l.regions.len() implies (#[trigger] l.regions[i]).kind is Child
        || plain_region(l.regions[i]) by {
        assert(i == 0 || i == 1 || i == 2);
    }
    assert forall|k: int| 0 <= k < l.interest_bytes.len() implies is_non_ws(#[trigger] l.interest_bytes[k]) by {
        assert(k == 0 || k == 1 || k == 2);
    }
    assert(l.interest_bytes[0] == 10u8);
}

proof fn lemma_lines_pan()
    ensures
        line_language(pan_view()),
{
    let l = pan_view();
    lemma_newline_free(seq![35u8]);
    lemma_newline_free(seq![34u8]);
    lemma_newline_free(seq![39u8]);
    assert forall|i: int| 0 <= i < l.regions.len() implies (#[trigger] l.regions[i]).kind is Child
        || plain_region(l.regions[i]) by {
        assert(i == 0 || i == 1 || i == 2);
    }
    assert forall|k: int| 0 <= k < l.interest_bytes.len() implies is_non_ws(#[trigger] l.interest_bytes[k]) by {
        assert(k == 0 || k == 1 || k == 2 || k == 3);
    }
    assert(l.interest_bytes[0] == 10u8);
}

proof fn lemma_lines_pascal()
    ensures
        line_language(pascal_view()),
{
    let l = pascal_view();
    lemma_newline_free(seq![47u8, 47u8]);
    lemma_newline_free(seq![40u8, 42u8]);
    lemma_newline_free(seq![42u8, 41u8]);
    lemma_newline_free(seq![123u8]);
    lemma_newline_free(seq![125u8]);
    lemma_newline_free(seq![39u8]);
    assert forall|i: int| 0 <= i < l.regions.len() implies (#[trigger] l.regions[i]).kind is Child
        || plain_region(l.regions[i]) by {
        assert(i == 0 || i == 1 || i == 2 || i == 3);
    }
    assert forall|k: int| 0 <= k < l.interest_bytes.len() implies is_non_ws(#[trigger] l.interest_bytes[k]) by {
        assert(k == 0 || k == 1 || k == 2 || k == 3 || k == 4);
    }
    assert(l.interest_bytes[0] == 10u8);
}

proof fn lemma_lines_perl()
    ensures
        line_language(perl_view()),
{
    let l = perl_view();
    lemma_newline_free(seq![61u8, 112u8, 111u8, 100u8]);
    lemma_newline_free(seq![61u8, 99u8, 117u8, 116u8]);
    lemma_newline_free(seq![35u8]);
    lemma_newline_free(seq![34u8]);
    lemma_newline_free(seq![39u8]);
    assert forall|i: int| 0 <= i < l.regions.len() implies (#[trigger] l.regions[i]).kind is Child
        || plain_region(l.regions[i]) by {
        assert(i == 0 || i == 1 || i == 2 || i == 3);
    }
    assert forall|k: int| 0 <= k < l.interest_bytes.len() implies is_non_ws(#[trigger] l.interest_bytes[k]) by {
        assert(k == 0 || k == 1 || k == 2 || k == 3 || k == 4);
    }
    assert(l.interest_bytes[0] == 10u8);
}

proof fn lemma_lines_pest()
    ensures
        line_language(pest_view()),
{
    let l = pest_view();
    lemma_newline_free(seq![47u8, 47u8]);
    lemma_newline_free(seq![34u8]);
    lemma_newline_free(seq![39u8]);
    assert forall|i: int| 0 <= i < l.regions.len() implies (#[trigger] l.regions[i]).kind is Child
        || plain_region(l.regions[i]) by {
        assert(i == 0 || i == 1 || i == 2);
    }
    assert forall|k: int| 0 <= k < l.interest_bytes.len() implies is_non_ws(#[trigger] l.interest_bytes[k]) by {
        assert(k == 0 || k == 1 || k == 2 || k == 3);
    }
    assert(l.interest_bytes[0] == 10u8);
}

proof fn lemma_lines_plain_text()
    ensures
        line_language(plain_text_view()),
{
    let l = plain_text_view();
    assert forall|k: int| 0 <= k < l.interest_bytes.len() implies is_non_ws(#[trigger] l.interest_bytes[k]) by {
        assert(k == 0);
    }
    assert(l.interest_bytes[0] == 10u8);
}

proof fn lemma_lines_polly()
    ensures
        line_language(polly_view()),
{
    let l = polly_view();
    lemma_newline_free(seq![60u8, 33u8, 45u8, 45u8]);
    lemma_newline_free(seq![45u8, 45u8, 62u8]);
    lemma_newline_free(seq![34u8]);
    lemma_newline_free(seq![39u8]);
    assert forall|i: int| 0 <= i < l.regions.len() implies (#[trigger] l.regions[i]).kind is Child
        || plain_region(l.regions[i]) by {
        assert(i == 0 || i == 1 || i == 2);
    }
    assert forall|k: int| 0 <= k < l.interest_bytes.len() implies is_non_ws(#[trigger] l.interest_bytes[k]) by {
        assert(k == 0 || k == 1 || k == 2 || k == 3);
    }
    assert(l.interest_bytes[0] == 10u8);
}

proof fn lemma_lines_pony()
    ensures
        line_language(pony_view()),
{
    let l = pony_view();
    lemma_newline_free(seq![34u8, 34u8, 34u8]);
    lemma_newline_free(seq![47u8, 47u8]);
    lemma_newline_free(seq![47u8, 42u8]);
    lemma_newline_free(seq![42u8, 47u8]);
    lemma_newline_free(seq![34u8]);
    assert forall|i: int| 0 <= i < l.regions.len() implies (#[trigger] l.regions[i]).kind is Child
        || plain_region(l.regions[i]) by {
        assert(i == 0 || i == 1 || i == 2 || i == 3);
    }
    assert forall|k: int| 0 <= k < l.interest_bytes.len() implies is_non_ws(#[trigger] l.interest_bytes[k]) by {
        assert(k == 0 || k == 1 || k == 2);
    }
    assert(l.interest_bytes[0] == 10u8);
}

proof fn lemma_lines_postcss()
    ensures
        line_language(postcss_view()),
{
    let l = postcss_view();
    lemma_newline_free(seq![47u8, 47u8]);
    lemma_newline_free(seq![47u8, 42u8]);
    lemma_newline_free(seq![42u8, 47u8]);
    lemma_newline_free(seq![34u8]);
    lemma_newline_free(seq![39u8]);
    assert forall|i: int| 0 <= i < l.regions.len() implies (#[trigger] l.regions[i]).kind is Child
        || plain_region(l.regions[i]) by {
        assert(i == 0 || i == 1 || i == 2 || i == 3);
    }
    assert forall|k: int| 0 <= k < l.interest_bytes.len() implies is_non_ws(#[trigger] l.interest_bytes[k]) by {
        assert(k == 0 || k == 1 || k == 2 || k == 3);
    }
    assert(l.interest_bytes[0] == 10u8);
}

proof fn lemma_lines_powershell()
    ensures
        line_language(powershell_view()),
{
    let l = powershell_view();
    lemma_newline_free(seq![60u8, 35u8]);
    lemma_newline_free(seq![35u8, 62u8]);
    lemma_newline_free(seq![34u8, 64u8]);
    lemma_newline_free(seq![64u8, 34u8]);
    lemma_newline_free(seq![64u8, 39u8]);
    lemma_newline_free(seq![39u8, 64u8]);
    lemma_newline_free(seq![35u8]);
    lemma_newline_free(seq![34u8]);
    lemma_newline_free(seq![39u8]);
    assert forall|i: int| 0 <= i < l.regions.len() implies (#[trigger] l.regions[i]).kind is Child
        || plain_region(l.regions[i]) by {
        assert(i == 0 || i == 1 || i == 2 || i == 3 || i == 4 || i == 5);
    }
    assert forall|k: int| 0 <= k < l.interest_bytes.len() implies is_non_ws(#[trigger] l.interest_bytes[k]) by {
        assert(k == 0 || k == 1 || k == 2 || k == 3 || k == 4 || k == 5);
    }
    assert(l.interest_bytes[0] == 10u8);
}

proof fn lemma_lines_processing()
    ensures
        line_language(processing_view()),
{
    let l = processing_view();
    lemma_newline_free(seq![47u8, 47u8]);
    lemma_newline_free(seq![47u8, 42u8]);
    lemma_newline_free(seq![42u8, 47u8]);
    lemma_newline_free(seq![34u8]);
    assert forall|i: int| 0 <= i < l.regions.len() implies (#[trigger] l.regions[i]).kind is Child
        || plain_region(l.regions[i]) by {
        assert(i == 0 || i == 1 || i == 2);
    }
    assert forall|k: int| 0 <= k < l.interest_bytes.len() implies is_non_ws(#[trigger] l.interest_bytes[k]) by {
        assert(k == 0 || k == 1 || k == 2);
    }
    assert(l.interest_bytes[0] == 10u8);
}

proof fn lemma_lines_prolog()
    ensures
        line_language(prolog_view()),
{
    let l = prolog_view();
    lemma_newline_free(seq![47u8, 42u8]);
    lemma_newline_free(seq![42u8, 47u8]);
    lemma_newline_free(seq![37u8]);
    lemma_newline_free(seq![34u8]);
    assert forall|i: int| 0 <= i < l.regions.len() implies (#[trigger] l.regions[i]).kind is Child
        || plain_region(l.regions[i]) by {
        assert(i == 0 || i == 1 || i == 2);
    }
    assert forall|k: int| 0 <= k < l.interest_bytes.len() implies is_non_ws(#[trigger] l.interest_bytes[k]) by {
        assert(k == 0 || k == 1 || k == 2 || k == 3);
    }
    assert(l.interest_bytes[0] == 10u8);
}

proof fn lemma_lines_protocol_buffers()
    ensures
        line_language(protocol_buffers_view()),
{
    let l = protocol_buffers_view();
    lemma_newline_free(seq![47u8, 47u8]);
    assert forall|i: int| 0 <= i < l.regions.len() implies (#[trigger] l.regions[i]).kind is Child
        || plain_region(l.regions[i]) by {
        assert(i == 0);
    }
    assert forall|k: int| 0 <= k < l.interest_bytes.len() implies is_non_ws(#[trigger] l.interest_bytes[k]) by {
        assert(k == 0 || k == 1);
    }
    assert(l.interest_bytes[0] == 10u8);
}

proof fn lemma_lines_pug()
    ensures
        line_language(pug_view()),
{
    let l = pug_view();
    lemma_newline_free(seq![47u8, 47u8, 45u8]);
    lemma_newline_free(seq![35u8, 123u8, 34u8]);
    lemma_newline_free(seq![34u8, 125u8]);
    lemma_newline_free(seq![35u8, 123u8, 39u8]);
    lemma_newline_free(seq![39u8, 125u8]);
    lemma_newline_free(seq![35u8, 123u8, 96u8]);
    lemma_newline_free(seq![96u8, 125u8]);
    lemma_newline_free(seq![47u8, 47u8]);
    assert forall|i: int| 0 <= i < l.regions.len() implies (#[trigger] l.regions[i]).kind is Child
        || plain_region(l.regions[i]) by {
        assert(i == 0 || i == 1 || i == 2 || i == 3 || i == 4);
    }
    assert forall|k: int| 0 <= k < l.interest_bytes.len() implies is_non_ws(#[trigger] l.interest_bytes[k]) by {
        assert(k == 0 || k == 1 || k == 2);
    }
    assert(l.interest_bytes[0] == 10u8);
}

proof fn lemma_lines_purescript()
    ensures
        line_language(purescript_view()),
{
    let l = purescript_view();
    lemma_newline_free(seq![45u8, 45u8]);
    lemma_newline_free(seq![123u8, 45u8]);
    lemma_newline_free(seq![45u8, 125u8]);
    assert forall|i: int| 0 <= i < l.regions.len() implies (#[trigger] l.regions[i]).kind is Child
        || plain_region(l.regions[i]) by {
        assert(i == 0 || i == 1);
    }
    assert forall|k: int| 0 <= k < l.interest_bytes.len() implies is_non_ws(#[trigger] l.interest_bytes[k]) by {
        assert(k == 0 || k == 1 || k == 2);
    }
    assert(l.interest_bytes[0] == 10u8);
}

proof fn lemma_lines_python()
    ensures
        line_language(python_view()),
{
    let l = python_view();
    lemma_newline_free(seq![34u8, 34u8, 34u8]);
    lemma_newline_free(seq![39u8, 39u8, 39u8]);
    lemma_newline_free(seq![35u8]);
    lemma_newline_free(seq![34u8]);
    lemma_newline_free(seq![39u8]);
    assert forall|i: int| 0 <= i < l.regions.len() implies (#[trigger] l.regions[i]).kind is Child
        || plain_region(l.regions[i]) by {
        assert(i == 0 || i == 1 || i == 2 || i == 3 || i == 4);
    }
    assert forall|k: int| 0 <= k < l.interest_bytes.len() implies is_non_ws(#[trigger] l.interest_bytes[k]) by {
        assert(k == 0 || k == 1 || k == 2 || k == 3);
    }
    assert(l.interest_bytes[0] == 10u8);
}

proof fn lemma_lines_q()
    ensures
        line_language(q_view()),
{
    let l = q_view();
    lemma_newline_free(seq![47u8]);
    lemma_newline_free(seq![34u8]);
    assert forall|i: int| 0 <= i < l.regions.len() implies (#[trigger] l.regions[i]).kind is Child
        || plain_region(l.regions[i]) by {
        assert(i == 0 || i == 1);
    }
    assert forall|k: int| 0 <= k < l.interest_bytes.len() implies is_non_ws(#[trigger] l.interest_bytes[k]) by {
        assert(k == 0 || k == 1 || k == 2);
    }
    assert(l.interest_bytes[0] == 10u8);
}

proof fn lemma_lines_qcl()
    ensures
        line_language(qcl_view()),
{
    let l = qcl_view();
    lemma_newline_free(seq![47u8, 47u8]);
    lemma_newline_free(seq![47u8, 42u8]);
    lemma_newline_free(seq![42u8, 47u8]);
    lemma_newline_free(seq![34u8]);
    assert forall|i: int| 0 <= i < l.regions.len() implies (#[trigger] l.regions[i]).kind is Child
        || plain_region(l.regions[i]) by {
        assert(i == 0 || i == 1 || i == 2);
    }
    assert forall|k: int| 0 <= k < l.interest_bytes.len() implies is_non_ws(#[trigger] l.interest_bytes[k]) by {
        assert(k == 0 || k == 1 || k == 2);
    }
    assert(l.interest_bytes[0] == 10u8);
}

proof fn lemma_lines_qml()
    ensures
        line_language(qml_view()),
{
    let l = qml_view();
    lemma_newline_free(seq![47u8, 47u8]);
    lemma_newline_free(seq![47u8, 42u8]);
    lemma_newline_free(seq![42u8, 47u8]);
    lemma_newline_free(seq![34u8]);
    lemma_newline_free(seq![39u8]);
    assert forall|i: int| 0 <= i < l.regions.len() implies (#[trigger] l.regions[i]).kind is Child
        || plain_region(l.regions[i]) by {
        assert(i == 0 || i == 1 || i == 2 || i == 3);
    }
    assert forall|k: int| 0 <= k < l.interest_bytes.len() implies is_non_ws(#[trigger] l.interest_bytes[k]) by {
        assert(k == 0 || k == 1 || k == 2 || k == 3);
    }
    assert(l.interest_bytes[0] == 10u8);
}

proof fn lemma_lines_r()
    ensures
        line_language(r_view()),
{
    let l = r_view();
    lemma_newline_free(seq![35u8]);
    assert forall|i: int| 0 <= i < l.regions.len() implies (#[trigger] l.regions[i]).kind is Child
        || plain_region(l.regions[i]) by {
        assert(i == 0);
    }
    assert forall|k: int| 0 <= k < l.interest_bytes.len() implies is_non_ws(#[trigger] l.interest_bytes[k]) by {
        assert(k == 0 || k == 1);
    }
    assert(l.interest_bytes[0] == 10u8);
}

proof fn lemma_lines_rpm_specfile()
    ensures
        line_language(rpm_specfile_view()),
{
    let l = rpm_specfile_view();
    lemma_newline_free(seq![35u8]);
    assert forall|i: int| 0 <= i < l.regions.len() implies (#[trigger] l.regions[i]).kind is Child
        || plain_region(l.regions[i]) by {
        assert(i == 0);
    }
    assert forall|k: int| 0 <= k < l.interest_bytes.len() implies is_non_ws(#[trigger] l.interest_bytes[k]) by {
        assert(k == 0 || k == 1);
    }
    assert(l.interest_bytes[0] == 10u8);
}

proof fn lemma_lines_racket()
    ensures
        line_language(racket_view()),
{
    let l = racket_view();
    lemma_newline_free(seq![35u8, 124u8]);
    lemma_newline_free(seq![124u8, 35u8]);
    lemma_newline_free(seq![59u8]);
    assert forall|i: int| 0 <= i < l.regions.len() implies (#[trigger] l.regions[i]).kind is Child
        || plain_region(l.regions[i]) by {
        assert(i == 0 || i == 1);
    }
    assert forall|k: int| 0 <= k < l.interest_bytes.len() implies is_non_ws(#[trigger] l.interest_bytes[k]) by {
        assert(k == 0 || k == 1 || k == 2);
    }
    assert(l.interest_bytes[0] == 10u8);
}

proof fn lemma_lines_rakefile()
    ensures
        line_language(rakefile_view()),
{
    let l = rakefile_view();
    lemma_newline_free(seq![61u8, 98u8, 101u8, 103u8, 105u8, 110u8]);
    lemma_newline_free(seq![61u8, 101u8, 110u8, 100u8]);
    lemma_newline_free(seq![35u8]);
    lemma_newline_free(seq![34u8]);
    lemma_newline_free(seq![39u8]);
    assert forall|i: int| 0 <= i < l.regions.len() implies (#[trigger] l.regions[i]).kind is Child
        || plain_region(l.regions[i]) by {
        assert(i == 0 || i == 1 || i == 2 || i == 3);
    }
    assert forall|k: int| 0 <= k < l.interest_bytes.len() implies is_non_ws(#[trigger] l.interest_bytes[k]) by {
        assert(k == 0 || k == 1 || k == 2 || k == 3 || k == 4);
    }
    assert(l.interest_bytes[0] == 10u8);
}

proof fn lemma_lines_rakudo()
    ensures
        line_language(rakudo_view()),
{
    let l = rakudo_view();
    lemma_newline_free(seq![61u8, 98u8, 101u8, 103u8, 105u8, 110u8]);
    lemma_newline_free(seq![61u8, 101u8, 110u8, 100u8]);
    lemma_newline_free(seq![35u8]);
    lemma_newline_free(seq![34u8]);
    lemma_newline_free(seq![39u8]);
    assert forall|i: int| 0 <= i < l.regions.len() implies (#[trigger] l.regions[i]).kind is Child
        || plain_region(l.regions[i]) by {
        assert(i == 0 || i == 1 || i == 2 || i == 3);
    }
    assert forall|k: int| 0 <= k < l.interest_bytes.len() implies is_non_ws(#[trigger] l.interest_bytes[k]) by {
        assert(k == 0 || k == 1 || k == 2 || k == 3 || k == 4);
    }
    assert(l.interest_bytes[0] == 10u8);
}

proof fn lemma_lines_razor()
    ensures
        line_language(razor_view()),
{
    let l = razor_view();
    lemma_newline_free(seq![60u8, 33u8, 45u8, 45u8]);
    lemma_newline_free(seq![45u8, 45u8, 62u8]);
    lemma_newline_free(seq![64u8, 42u8]);
    lemma_newline_free(seq![42u8, 64u8]);
    assert forall|i: int| 0 <= i < l.regions.len() implies (#[trigger] l.regions[i]).kind is Child
        || plain_region(l.regions[i]) by {
        assert(i == 0 || i == 1);
    }
    assert forall|k: int| 0 <= k < l.interest_bytes.len() implies is_non_ws(#[trigger] l.interest_bytes[k]) by {
        assert(k == 0 || k == 1 || k == 2);
    }
    assert(l.interest_bytes[0] == 10u8);
}

proof fn lemma_lines_restructuredtext()
    ensures
        line_language(restructuredtext_view()),
{
    let l = restructuredtext_view();
    assert forall|k: int| 0 <= k < l.interest_bytes.len() implies is_non_ws(#[trigger] l.interest_bytes[k]) by {
        assert(k == 0);
    }
    assert(l.interest_bytes[0] == 10u8);
}

proof fn lemma_lines_ren_py()
    ensures
        line_language(ren_py_view()),
{
    let l = ren_py_view();
    lemma_newline_free(seq![35u8]);
    lemma_newline_free(seq![34u8]);
    lemma_newline_free(seq![39u8]);
    lemma_newline_free(seq![96u8]);
    assert forall|i: int| 0 <= i < l.regions.len() implies (#[trigger] l.regions[i]).kind is Child
        || plain_region(l.regions[i]) by {
        assert(i == 0 || i == 1 || i == 2 || i == 3);
    }
    assert forall|k: int| 0 <= k < l.interest_bytes.len() implies is_non_ws(#[trigger] l.interest_bytes[k]) by {
        assert(k == 0 || k == 1 || k == 2 || k == 3 || k == 4);
    }
    assert(l.interest_bytes[0] == 10u8);
}

proof fn lemma_lines_ruby()
    ensures
        line_language(ruby_view()),
{
    let l = ruby_view();
    lemma_newline_free(seq![61u8, 98u8, 101u8, 103u8, 105u8, 110u8]);
    lemma_newline_free(seq![61u8, 101u8, 110u8, 100u8]);
    lemma_newline_free(seq![35u8]);
    lemma_newline_free(seq![34u8]);
    lemma_newline_free(seq![39u8]);
    assert forall|i: int| 0 <= i < l.regions.len() implies (#[trigger] l.regions[i]).kind is Child
        || plain_region(l.regions[i]) by {
        assert(i == 0 || i == 1 || i == 2 || i == 3);
    }
    assert forall|k: int| 0 <= k < l.interest_bytes.len() implies is_non_ws(#[trigger] l.interest_bytes[k]) by {
        assert(k == 0 || k == 1 || k == 2 || k == 3 || k == 4);
    }
    assert(l.interest_bytes[0] == 10u8);
}

proof fn lemma_lines_ruby_html()
    ensures
        line_language(ruby_html_view()),
{
    let l = ruby_html_view();
    lemma_newline_free(seq![60u8, 33u8, 45u8, 45u8]);
    lemma_newline_free(seq![45u8, 45u8, 62u8]);
    lemma_newline_free(seq![34u8]);
    lemma_newline_free(seq![39u8]);
    assert forall|i: int| 0 <= i < l.regions.len() implies (#[trigger] l.regions[i]).kind is Child
        || plain_region(l.regions[i]) by {
        assert(i == 0 || i == 1 || i == 2);
    }
    assert forall|k: int| 0 <= k < l.interest_bytes.len() implies is_non_ws(#[trigger] l.interest_bytes[k]) by {
        assert(k == 0 || k == 1 || k == 2 || k == 3);
    }
    assert(l.interest_bytes[0] == 10u8);
}

proof fn lemma_lines_rust()
    ensures
        line_language(rust_view()),
{
    let l = rust_view();
    lemma_newline_free(seq![114u8, 35u8, 35u8, 34u8]);
    lemma_newline_free(seq![34u8, 35u8, 35u8]);
    lemma_newline_free(seq![114u8, 35u8, 34u8]);
    lemma_newline_free(seq![34u8, 35u8]);
    lemma_newline_free(seq![47u8, 47u8]);
    lemma_newline_free(seq![47u8, 42u8]);
    lemma_newline_free(seq![42u8, 47u8]);
    lemma_newline_free(seq![114u8, 34u8]);
    lemma_newline_free(seq![34u8]);
    assert forall|i: int| 0 <= i < l.regions.len() implies (#[trigger] l.regions[i]).kind is Child
        || plain_region(l.regions[i]) by {
        assert(i == 0 || i == 1 || i == 2 || i == 3 || i == 4 || i == 5);
    }
    assert forall|k: int| 0 <= k < l.interest_bytes.len() implies is_non_ws(#[trigger] l.interest_bytes[k]) by {
        assert(k == 0 || k == 1 || k == 2 || k == 3);
    }
    assert(l.interest_bytes[0] == 10u8);
}

proof fn lemma_lines_rusty_object_notation()
    ensures
        line_language(rusty_object_notation_view()),
{
    let l = rusty_object_notation_view();
    lemma_newline_free(seq![47u8, 47u8]);
    lemma_newline_free(seq![47u8, 42u8]);
    lemma_newline_free(seq![42u8, 47u8]);
    lemma_newline_free(seq![34u8]);
    assert forall|i: int| 0 <= i < l.regions.len() implies (#[trigger] l.regions[i]).kind is Child
        || plain_region(l.regions[i]) by {
        assert(i == 0 || i == 1 || i == 2);
    }
    assert forall|k: int| 0 <= k < l.interest_bytes.len() implies is_non_ws(#[trigger] l.interest_bytes[k]) by {
        assert(k == 0 || k == 1 || k == 2);
    }
    assert(l.interest_bytes[0] == 10u8);
}

proof fn lemma_lines_sql()
    ensures
        line_language(sql_view()),
{
    let l = sql_view();
    lemma_newline_free(seq![45u8, 45u8]);
    lemma_newline_free(seq![47u8, 42u8]);
    lemma_newline_free(seq![42u8, 47u8]);
    lemma_newline_free(seq![39u8]);
    assert forall|i: int| 0 <= i < l.regions.len() implies (#[trigger] l.regions[i]).kind is Child
        || plain_region(l.regions[i]) by {
        assert(i == 0 || i == 1 || i == 2);
    }
    assert forall|k: int| 0 <= k < l.interest_bytes.len() implies is_non_ws(#[trigger] l.interest_bytes[k]) by {
        assert(k == 0 || k == 1 || k == 2 || k == 3);
    }
    assert(l.interest_bytes[0] == 10u8);
}

proof fn lemma_lines_srecode_template()
    ensures
        line_language(srecode_template_view()),
{
    let l = srecode_template_view();
    lemma_newline_free(seq![59u8, 59u8]);
    assert forall|i: int| 0 <= i < l.regions.len() implies (#[trigger] l.regions[i]).kind is Child
        || plain_region(l.regions[i]) by {
        assert(i == 0);
    }
    assert forall|k: int| 0 <= k < l.interest_bytes.len() implies is_non_ws(#[trigger] l.interest_bytes[k]) by {
        assert(k == 0 || k == 1);
    }
    assert(l.interest_bytes[0] == 10u8);
}

proof fn lemma_lines_svg()
    ensures
        line_language(svg_view()),
{
    let l = svg_view();
    lemma_newline_free(seq![60u8, 33u8, 45u8, 45u8]);
    lemma_newline_free(seq![45u8, 45u8, 62u8]);
    lemma_newline_free(seq![34u8]);
    lemma_newline_free(seq![39u8]);
    assert forall|i: int| 0 <= i < l.regions.len() implies (#[trigger] l.regions[i]).kind is Child
        || plain_region(l.regions[i]) by {
        assert(i == 0 || i == 1 || i == 2);
    }
    assert forall|k: int| 0 <= k < l.interest_bytes.len() implies is_non_ws(#[trigger] l.interest_bytes[k]) by {
        assert(k == 0 || k == 1 || k == 2 || k == 3);
    }
    assert(l.interest_bytes[0] == 10u8);
}

proof fn lemma_lines_swig()
    ensures
        line_language(swig_view()),
{
    let l = swig_view();
    lemma_newline_free(seq![47u8, 47u8]);
    lemma_newline_free(seq![47u8, 42u8]);
    lemma_newline_free(seq![42u8, 47u8]);
    lemma_newline_free(seq![34u8]);
    assert forall|i: int| 0 <= i < l.regions.len() implies (#[trigger] l.regions[i]).kind is Child
        || plain_region(l.regions[i]) by {
        assert(i == 0 || i == 1 || i == 2);
    }
    assert forall|k: int| 0 <= k < l.interest_bytes.len() implies is_non_ws(#[trigger] l.interest_bytes[k]) by {
        assert(k == 0 || k == 1 || k == 2);
    }
    assert(l.interest_bytes[0] == 10u8);
}

proof fn lemma_lines_sass()
    ensures
        line_language(sass_view()),
{
    let l = sass_view();
    lemma_newline_free(seq![47u8, 47u8]);
    lemma_newline_free(seq![47u8, 42u8]);
    lemma_newline_free(seq![42u8, 47u8]);
    lemma_newline_free(seq![34u8]);
    lemma_newline_free(seq![39u8]);
    assert forall|i: int| 0 <= i < l.regions.len() implies (#[trigger] l.regions[i]).kind is Child
        || plain_region(l.regions[i]) by {
        assert(i == 0 || i == 1 || i == 2 || i == 3);
    }
    assert forall|k: int| 0 <= k < l.interest_bytes.len() implies is_non_ws(#[trigger] l.interest_bytes[k]) by {
        assert(k == 0 || k == 1 || k == 2 || k == 3);
    }
    assert(l.interest_bytes[0] == 10u8);
}

proof fn lemma_lines_scala()
    ensures
        line_language(scala_view()),
{
    let l = scala_view();
    lemma_newline_free(seq![47u8, 47u8]);
    lemma_newline_free(seq![47u8, 42u8]);
    lemma_newline_free(seq![42u8, 47u8]);
    lemma_newline_free(seq![34u8]);
    assert forall|i: int| 0 <= i < l.regions.len() implies (#[trigger] l.regions[i]).kind is Child
        || plain_region(l.regions[i]) by {
        assert(i == 0 || i == 1 || i == 2);
    }
    assert forall|k: int| 0 <= k < l.interest_bytes.len() implies is_non_ws(#[trigger] l.interest_bytes[k]) by {
        assert(k == 0 || k == 1 || k == 2);
    }
    assert(l.interest_bytes[0] == 10u8);
}

proof fn lemma_lines_scheme()
    ensures
        line_language(scheme_view()),
{
    let l = scheme_view();
    lemma_newline_free(seq![35u8, 124u8]);
    lemma_newline_free(seq![124u8, 35u8]);
    lemma_newline_free(seq![59u8]);
    assert forall|i: int| 0 <= i < l.regions.len() implies (#[trigger] l.regions[i]).kind is Child
        || plain_region(l.regions[i]) by {
        assert(i == 0 || i == 1);
    }
    assert forall|k: int| 0 <= k < l.interest_bytes.len() implies is_non_ws(#[trigger] l.interest_bytes[k]) by {
        assert(k == 0 || k == 1 || k == 2);
    }
    assert(l.interest_bytes[0] == 10u8);
}

proof fn lemma_lines_scons()
    ensures
        line_language(scons_view()),
{
    let l = scons_view();
    lemma_newline_free(seq![34u8, 34u8, 34u8]);
    lemma_newline_free(seq![39u8, 39u8, 39u8]);
    lemma_newline_free(seq![35u8]);
    lemma_newline_free(seq![34u8]);
    lemma_newline_free(seq![39u8]);
    assert forall|i: int| 0 <= i < l.regions.len() implies (#[trigger] l.regions[i]).kind is Child
        || plain_region(l.regions[i]) by {
        assert(i == 0 || i == 1 || i == 2 || i == 3 || i == 4);
    }
    assert forall|k: int| 0 <= k < l.interest_bytes.len() implies is_non_ws(#[trigger] l.interest_bytes[k]) by {
        assert(k == 0 || k == 1 || k == 2 || k == 3);
    }
    assert(l.interest_bytes[0] == 10u8);
}

proof fn lemma_lines_shell()
    ensures
        line_language(shell_view()),
{
    let l = shell_view();
    lemma_newline_free(seq![35u8]);
    lemma_newline_free(seq![34u8]);
    lemma_newline_free(seq![39u8]);
    assert forall|i: int| 0 <= i < l.regions.len() implies (#[trigger] l.regions[i]).kind is Child
        || plain_region(l.regions[i]) by {
        assert(i == 0 || i == 1 || i == 2);
    }
    assert forall|k: int| 0 <= k < l.interest_bytes.len() implies is_non_ws(#[trigger] l.interest_bytes[k]) by {
        assert(k == 0 || k == 1 || k == 2 || k == 3);
    }
    assert(l.interest_bytes[0] == 10u8);
}

proof fn lemma_lines_solidity()
    ensures
        line_language(solidity_view()),
{
    let l = solidity_view();
    lemma_newline_free(seq![47u8, 47u8]);
    lemma_newline_free(seq![47u8, 42u8]);
    lemma_newline_free(seq![42u8, 47u8]);
    lemma_newline_free(seq![34u8]);
    assert forall|i: int| 0 <= i < l.regions.len() implies (#[trigger] l.regions[i]).kind is Child
        || plain_region(l.regions[i]) by {
        assert(i == 0 || i == 1 || i == 2);
    }
    assert forall|k: int| 0 <= k < l.interest_bytes.len() implies is_non_ws(#[trigger] l.interest_bytes[k]) by {
        assert(k == 0 || k == 1 || k == 2);
    }
    assert(l.interest_bytes[0] == 10u8);
}

proof fn lemma_lines_specman_e()
    ensures
        line_language(specman_e_view()),
{
    let l = specman_e_view();
    lemma_newline_free(seq![45u8, 45u8]);
    lemma_newline_free(seq![47u8, 47u8]);
    lemma_newline_free(seq![39u8, 62u8]);
    lemma_newline_free(seq![60u8, 39u8]);
    assert forall|i: int| 0 <= i < l.regions.len() implies (#[trigger] l.regions[i]).kind is Child
        || plain_region(l.regions[i]) by {
        assert(i == 0 || i == 1 || i == 2);
    }
    assert forall|k: int| 0 <= k < l.interest_bytes.len() implies is_non_ws(#[trigger] l.interest_bytes[k]) by {
        assert(k == 0 || k == 1 || k == 2 || k == 3);
    }
    assert(l.interest_bytes[0] == 10u8);
}

proof fn lemma_lines_spice_netlist()
    ensures
        line_language(spice_netlist_view()),
{
    let l = spice_netlist_view();
    lemma_newline_free(seq![42u8]);
    assert forall|i: int| 0 <= i < l.regions.len() implies (#[trigger] l.regions[i]).kind is Child
        || plain_region(l.regions[i]) by {
        assert(i == 0);
    }
    assert forall|k: int| 0 <= k < l.interest_bytes.len() implies is_non_ws(#[trigger] l.interest_bytes[k]) by {
        assert(k == 0 || k == 1);
    }
    assert(l.interest_bytes[0] == 10u8);
}

proof fn lemma_lines_stan()
    ensures
        line_language(stan_view()),
{
    let l = stan_view();
    lemma_newline_free(seq![47u8, 47u8]);
    lemma_newline_free(seq![47u8, 42u8]);
    lemma_newline_free(seq![42u8, 47u8]);
    lemma_newline_free(seq![35u8]);
    lemma_newline_free(seq![34u8]);
    assert forall|i: int| 0 <= i < l.regions.len() implies (#[trigger] l.regions[i]).kind is Child
        || plain_region(l.regions[i]) by {
        assert(i == 0 || i == 1 || i == 2 || i == 3);
    }
    assert forall|k: int| 0 <= k < l.interest_bytes.len() implies is_non_ws(#[trigger] l.interest_bytes[k]) by {
        assert(k == 0 || k == 1 || k == 2 || k == 3);
    }
    assert(l.interest_bytes[0] == 10u8);
}

proof fn lemma_lines_standard_ml_sml()
    ensures
        line_language(standard_ml_sml_view()),
{
    let l = standard_ml_sml_view();
    lemma_newline_free(seq![40u8, 42u8]);
    lemma_newline_free(seq![42u8, 41u8]);
    lemma_newline_free(seq![34u8]);
    assert forall|i: int| 0 <= i < l.regions.len() implies (#[trigger] l.regions[i]).kind is Child
        || plain_region(l.regions[i]) by {
        assert(i == 0 || i == 1);
    }
    assert forall|k: int| 0 <= k < l.interest_bytes.len() implies is_non_ws(#[trigger] l.interest_bytes[k]) by {
        assert(k == 0 || k == 1 || k == 2);
    }
    assert(l.interest_bytes[0] == 10u8);
}

proof fn lemma_lines_stratego_xt()
    ensures
        line_language(stratego_xt_view()),
{
    let l = stratego_xt_view();
    lemma_newline_free(seq![47u8, 47u8]);
    lemma_newline_free(seq![47u8, 42u8]);
    lemma_newline_free(seq![42u8, 47u8]);
    lemma_newline_free(seq![36u8, 91u8]);
    lemma_newline_free(seq![93u8]);
    lemma_newline_free(seq![36u8, 60u8]);
    lemma_newline_free(seq![62u8]);
    lemma_newline_free(seq![36u8, 123u8]);
    lemma_newline_free(seq![125u8]);
    lemma_newline_free(seq![34u8]);
    assert forall|i: int| 0 <= i < l.regions.len() implies (#[trigger] l.regions[i]).kind is Child
        || plain_region(l.regions[i]) by {
        assert(i == 0 || i == 1 || i == 2 || i == 3 || i == 4 || i == 5);
    }
    assert forall|k: int| 0 <= k < l.interest_bytes.len() implies is_non_ws(#[trigger] l.interest_bytes[k]) by {
        assert(k == 0 || k == 1 || k == 2 || k == 3);
    }
    assert(l.interest_bytes[0] == 10u8);
}

proof fn lemma_lines_stylus()
    ensures
        line_language(stylus_view()),
{
    let l = stylus_view();
    lemma_newline_free(seq![47u8, 47u8]);
    lemma_newline_free(seq![47u8, 42u8]);
    lemma_newline_free(seq![42u8, 47u8]);
    lemma_newline_free(seq![34u8]);
    lemma_newline_free(seq![39u8]);
    assert forall|i: int| 0 <= i < l.regions.len() implies (#[trigger] l.regions[i]).kind is Child
        || plain_region(l.regions[i]) by {
        assert(i == 0 || i == 1 || i == 2 || i == 3);
    }
    assert forall|k: int| 0 <= k < l.interest_bytes.len() implies is_non_ws(#[trigger] l.interest_bytes[k]) by {
        assert(k == 0 || k == 1 || k == 2 || k == 3);
    }
    assert(l.interest_bytes[0] == 10u8);
}

proof fn lemma_lines_svelte()
    ensures
        line_language(svelte_view()),
{
    let l = svelte_view();
    lemma_newline_free(seq![60u8, 33u8, 45u8, 45u8]);
    lemma_newline_free(seq![45u8, 45u8, 62u8]);
    lemma_newline_free(seq![34u8]);
    lemma_newline_free(seq![39u8]);
    assert forall|i: int| 0 <= i < l.regions.len() implies (#[trigger] l.regions[i]).kind is Child
        || plain_region(l.regions[i]) by {
        assert(i == 0 || i == 1 || i == 2);
    }
    assert forall|k: int| 0 <= k < l.interest_bytes.len() implies is_non_ws(#[trigger] l.interest_bytes[k]) by {
        assert(k == 0 || k == 1 || k == 2 || k == 3);
    }
    assert(l.interest_bytes[0] == 10u8);
}

proof fn lemma_lines_swift()
    ensures
        line_language(swift_view()),
{
    let l = swift_view();
    lemma_newline_free(seq![47u8, 47u8]);
    lemma_newline_free(seq![47u8, 42u8]);
    lemma_newline_free(seq![42u8, 47u8]);
    lemma_newline_free(seq![34u8]);
    assert forall|i: int| 0 <= i < l.regions.len() implies (#[trigger] l.regions[i]).kind is Child
        || plain_region(l.regions[i]) by {
        assert(i == 0 || i == 1 || i == 2);
    }
    assert forall|k: int| 0 <= k < l.interest_bytes.len() implies is_non_ws(#[trigger] l.interest_bytes[k]) by {
        assert(k == 0 || k == 1 || k == 2);
    }
    assert(l.interest_bytes[0] == 10u8);
}

proof fn lemma_lines_systemverilog()
    ensures
        line_language(systemverilog_view()),
{
    let l = systemverilog_view();
    lemma_newline_free(seq![47u8, 47u8]);
    lemma_newline_free(seq![47u8, 42u8]);
    lemma_newline_free(seq![42u8, 47u8]);
    lemma_newline_free(seq![34u8]);
    assert forall|i: int| 0 <= i < l.regions.len() implies (#[trigger] l.regions[i]).kind is Child
        || plain_region(l.regions[i]) by {
        assert(i == 0 || i == 1 || i == 2);
    }
    assert forall|k: int| 0 <= k < l.interest_bytes.len() implies is_non_ws(#[trigger] l.interest_bytes[k]) by {
        assert(k == 0 || k == 1 || k == 2);
    }
    assert(l.interest_bytes[0] == 10u8);
}

proof fn lemma_lines_tcl()
    ensures
        line_language(tcl_view()),
{
    let l = tcl_view();
    lemma_newline_free(seq![35u8]);
    lemma_newline_free(seq![34u8]);
    lemma_newline_free(seq![39u8]);
    assert forall|i: int| 0 <= i < l.regions.len() implies (#[trigger] l.regions[i]).kind is Child
        || plain_region(l.regions[i]) by {
        assert(i == 0 || i == 1 || i == 2);
    }
    assert forall|k: int| 0 <= k < l.interest_bytes.len() implies is_non_ws(#[trigger] l.interest_bytes[k]) by {
        assert(k == 0 || k == 1 || k == 2 || k == 3);
    }
    assert(l.interest_bytes[0] == 10u8);
}

proof fn lemma_lines_toml()
    ensures
        line_language(toml_view()),
{
    let l = toml_view();
    lemma_newline_free(seq![34u8, 34u8, 34u8]);
    lemma_newline_free(seq![39u8, 39u8, 39u8]);
    lemma_newline_free(seq![35u8]);
    lemma_newline_free(seq![34u8]);
    lemma_newline_free(seq![39u8]);
    assert forall|i: int| 0 <= i < l.regions.len() implies (#[trigger] l.regions[i]).kind is Child
        || plain_region(l.regions[i]) by {
        assert(i == 0 || i == 1 || i == 2 || i == 3 || i == 4);
    }
    assert forall|k: int| 0 <= k < l.interest_bytes.len() implies is_non_ws(#[trigger] l.interest_bytes[k]) by {
        assert(k == 0 || k == 1 || k == 2 || k == 3);
    }
    assert(l.interest_bytes[0] == 10u8);
}

proof fn lemma_lines_tsx()
    ensures
        line_language(tsx_view()),
{
    let l = tsx_view();
    lemma_newline_free(seq![47u8, 47u8]);
    lemma_newline_free(seq![47u8, 42u8]);
    lemma_newline_free(seq![42u8, 47u8]);
    lemma_newline_free(seq![34u8]);
    lemma_newline_free(seq![39u8]);
    lemma_newline_free(seq![96u8]);
    assert forall|i: int| 0 <= i < l.regions.len() implies (#[trigger] l.regions[i]).kind is Child
        || plain_region(l.regions[i]) by {
        assert(i == 0 || i == 1 || i == 2 || i == 3 || i == 4);
    }
    assert forall|k: int| 0 <= k < l.interest_bytes.len() implies is_non_ws(#[trigger] l.interest_bytes[k]) by {
        assert(k == 0 || k == 1 || k == 2 || k == 3 || k == 4);
    }
    assert(l.interest_bytes[0] == 10u8);
}

proof fn lemma_lines_ttcn_3()
    ensures
        line_language(ttcn_3_view()),
{
    let l = ttcn_3_view();
    lemma_newline_free(seq![47u8, 47u8]);
    lemma_newline_free(seq![47u8, 42u8]);
    lemma_newline_free(seq![42u8, 47u8]);
    lemma_newline_free(seq![34u8]);
    assert forall|i: int| 0 <= i < l.regions.len() implies (#[trigger] l.regions[i]).kind is Child
        || plain_region(l.regions[i]) by {
        assert(i == 0 || i == 1 || i == 2);
    }
    assert forall|k: int| 0 <= k < l.interest_bytes.len() implies is_non_ws(#[trigger] l.interest_bytes[k]) by {
        assert(k == 0 || k == 1 || k == 2);
    }
    assert(l.interest_bytes[0] == 10u8);
}

proof fn lemma_lines_tex()
    ensures
        line_language(tex_view()),
{
    let l = tex_view();
    lemma_newline_free(seq![37u8]);
    assert forall|i: int| 0 <= i < l.regions.len() implies (#[trigger] l.regions[i]).kind is Child
        || plain_region(l.regions[i]) by {
        assert(i == 0);
    }
    assert forall|k: int| 0 <= k < l.interest_bytes.len() implies is_non_ws(#[trigger] l.interest_bytes[k]) by {
        assert(k == 0 || k == 1);
    }
    assert(l.interest_bytes[0] == 10u8);
}

proof fn lemma_lines_tera()
    ensures
        line_language(tera_view()),
{
    let l = tera_view();
    lemma_newline_free(seq![60u8, 33u8, 45u8, 45u8]);
    lemma_newline_free(seq![45u8, 45u8, 62u8]);
    lemma_newline_free(seq![123u8, 35u8]);
    lemma_newline_free(seq![35u8, 125u8]);
    lemma_newline_free(seq![34u8]);
    lemma_newline_free(seq![39u8]);
    assert forall|i: int| 0 <= i < l.regions.len() implies (#[trigger] l.regions[i]).kind is Child
        || plain_region(l.regions[i]) by {
        assert(i == 0 || i == 1 || i == 2 || i == 3);
    }
    assert forall|k: int| 0 <= k < l.interest_bytes.len() implies is_non_ws(#[trigger] l.interest_bytes[k]) by {
        assert(k == 0 || k == 1 || k == 2 || k == 3 || k == 4);
    }
    assert(l.interest_bytes[0] == 10u8);
}

proof fn lemma_lines_thrift()
    ensures
        line_language(thrift_view()),
{
    let l = thrift_view();
    lemma_newline_free(seq![47u8, 47u8]);
    lemma_newline_free(seq![47u8, 42u8]);
    lemma_newline_free(seq![42u8, 47u8]);
    lemma_newline_free(seq![35u8]);
    lemma_newline_free(seq![34u8]);
    lemma_newline_free(seq![39u8]);
    assert forall|i: int| 0 <= i < l.regions.len() implies (#[trigger] l.regions[i]).kind is Child
        || plain_region(l.regions[i]) by {
        assert(i == 0 || i == 1 || i == 2 || i == 3 || i == 4);
    }
    assert forall|k: int| 0 <= k < l.interest_bytes.len() implies is_non_ws(#[trigger] l.interest_bytes[k]) by {
        assert(k == 0 || k == 1 || k == 2 || k == 3 || k == 4);
    }
    assert(l.interest_bytes[0] == 10u8);
}

proof fn lemma_lines_twig()
    ensures
        line_language(twig_view()),
{
    let l = twig_view();
    lemma_newline_free(seq![60u8, 33u8, 45u8, 45u8]);
    lemma_newline_free(seq![45u8, 45u8, 62u8]);
    lemma_newline_free(seq![123u8, 35u8]);
    lemma_newline_free(seq![35u8, 125u8]);
    lemma_newline_free(seq![34u8]);
    lemma_newline_free(seq![39u8]);
    assert forall|i: int| 0 <= i < l.regions.len() implies (#[trigger] l.regions[i]).kind is Child
        || plain_region(l.regions[i]) by {
        assert(i == 0 || i == 1 || i == 2 || i == 3);
    }
    assert forall|k: int| 0 <= k < l.interest_bytes.len() implies is_non_ws(#[trigger] l.interest_bytes[k]) by {
        assert(k == 0 || k == 1 || k == 2 || k == 3 || k == 4);
    }
    assert(l.interest_bytes[0] == 10u8);
}

proof fn lemma_lines_typescript()
    ensures
        line_language(typescript_view()),
{
    let l = typescript_view();
    lemma_newline_free(seq![47u8, 47u8]);
    lemma_newline_free(seq![47u8, 42u8]);
    lemma_newline_free(seq![42u8, 47u8]);
    lemma_newline_free(seq![34u8]);
    lemma_newline_free(seq![39u8]);
    lemma_newline_free(seq![96u8]);
    assert forall|i: int| 0 <= i < l.regions.len() implies (#[trigger] l.regions[i]).kind is Child
        || plain_region(l.regions[i]) by {
        assert(i == 0 || i == 1 || i == 2 || i == 3 || i == 4);
    }
    assert forall|k: int| 0 <= k < l.interest_bytes.len() implies is_non_ws(#[trigger] l.interest_bytes[k]) by {
        assert(k == 0 || k == 1 || k == 2 || k == 3 || k == 4);
    }
    assert(l.interest_bytes[0] == 10u8);
}

proof fn lemma_lines_unreal_markdown()
    ensures
        line_language(unreal_markdown_view()),
{
    let l = unreal_markdown_view();
    assert forall|k: int| 0 <= k < l.interest_bytes.len() implies is_non_ws(#[trigger] l.interest_bytes[k]) by {
        assert(k == 0);
    }
    assert(l.interest_bytes[0] == 10u8);
}

proof fn lemma_lines_unreal_plugin()
    ensures
        line_language(unreal_plugin_view()),
{
    let l = unreal_plugin_view();
    assert forall|k: int| 0 <= k < l.interest_bytes.len() implies is_non_ws(#[trigger] l.interest_bytes[k]) by {
        assert(k == 0);
    }
    assert(l.interest_bytes[0] == 10u8);
}

proof fn lemma_lines_unreal_project()
    ensures
        line_language(unreal_project_view()),
{
    let l = unreal_project_view();
    assert forall|k: int| 0 <= k < l.interest_bytes.len() implies is_non_ws(#[trigger] l.interest_bytes[k]) by {
        assert(k == 0);
    }
    assert(l.interest_bytes[0] == 10u8);
}

proof fn lemma_lines_unreal_script()
    ensures
        line_language(unreal_script_view()),
{
    let l = unreal_script_view();
    lemma_newline_free(seq![47u8, 47u8]);
    lemma_newline_free(seq![47u8, 42u8]);
    lemma_newline_free(seq![42u8, 47u8]);
    lemma_newline_free(seq![34u8]);
    assert forall|i: int| 0 <= i < l.regions.len() implies (#[trigger] l.regions[i]).kind is Child
        || plain_region(l.regions[i]) by {
        assert(i == 0 || i == 1 || i == 2);
    }
    assert forall|k: int| 0 <= k < l.interest_bytes.len() implies is_non_ws(#[trigger] l.interest_bytes[k]) by {
        assert(k == 0 || k == 1 || k == 2);
    }
    assert(l.interest_bytes[0] == 10u8);
}

proof fn lemma_lines_unreal_shader()
    ensures
        line_language(unreal_shader_view()),
{
    let l = unreal_shader_view();
    lemma_newline_free(seq![47u8, 47u8]);
    lemma_newline_free(seq![47u8, 42u8]);
    lemma_newline_free(seq![42u8, 47u8]);
    lemma_newline_free(seq![34u8]);
    assert forall|i: int| 0 <= i < l.regions.len() implies (#[trigger] l.regions[i]).kind is Child
        || plain_region(l.regions[i]) by {
        assert(i == 0 || i == 1 || i == 2);
    }
    assert forall|k: int| 0 <= k < l.interest_bytes.len() implies is_non_ws(#[trigger] l.interest_bytes[k]) by {
        assert(k == 0 || k == 1 || k == 2);
    }
    assert(l.interest_bytes[0] == 10u8);
}

proof fn lemma_lines_unreal_shader_header()
    ensures
        line_language(unreal_shader_header_view()),
{
    let l = unreal_shader_header_view();
    lemma_newline_free(seq![47u8, 47u8]);
    lemma_newline_free(seq![47u8, 42u8]);
    lemma_newline_free(seq![42u8, 47u8]);
    lemma_newline_free(seq![34u8]);
    assert forall|i: int| 0 <= i < l.regions.len() implies (#[trigger] l.regions[i]).kind is Child
        || plain_region(l.regions[i]) by {
        assert(i == 0 || i == 1 || i == 2);
    }
    assert forall|k: int| 0 <= k < l.interest_bytes.len() implies is_non_ws(#[trigger] l.interest_bytes[k]) by {
        assert(k == 0 || k == 1 || k == 2);
    }
    assert(l.interest_bytes[0] == 10u8);
}

proof fn lemma_lines_ur_web()
    ensures
        line_language(ur_web_view()),
{
    let l = ur_web_view();
    lemma_newline_free(seq![40u8, 42u8]);
    lemma_newline_free(seq![42u8, 41u8]);
    lemma_newline_free(seq![34u8]);
    assert forall|i: int| 0 <= i < l.regions.len() implies (#[trigger] l.regions[i]).kind is Child
        || plain_region(l.regions[i]) by {
        assert(i == 0 || i == 1);
    }
    assert forall|k: int| 0 <= k < l.interest_bytes.len() implies is_non_ws(#[trigger] l.interest_bytes[k]) by {
        assert(k == 0 || k == 1 || k == 2);
    }
    assert(l.interest_bytes[0] == 10u8);
}

proof fn lemma_lines_ur_web_project()
    ensures
        line_language(ur_web_project_view()),
{
    let l = ur_web_project_view();
    lemma_newline_free(seq![35u8]);
    assert forall|i: int| 0 <= i < l.regions.len() implies (#[trigger] l.regions[i]).kind is Child
        || plain_region(l.regions[i]) by {
        assert(i == 0);
    }
    assert forall|k: int| 0 <= k < l.interest_bytes.len() implies is_non_ws(#[trigger] l.interest_bytes[k]) by {
        assert(k == 0 || k == 1);
    }
    assert(l.interest_bytes[0] == 10u8);
}

proof fn lemma_lines_vb6()
    ensures
        line_language(vb6_view()),
{
    let l = vb6_view();
    lemma_newline_free(seq![39u8]);
    assert forall|i: int| 0 <= i < l.regions.len() implies (#[trigger] l.regions[i]).kind is Child
        || plain_region(l.regions[i]) by {
        assert(i == 0);
    }
    assert forall|k: int| 0 <= k < l.interest_bytes.len() implies is_non_ws(#[trigger] l.interest_bytes[k]) by {
        assert(k == 0 || k == 1);
    }
    assert(l.interest_bytes[0] == 10u8);
}

proof fn lemma_lines_vbscript()
    ensures
        line_language(vbscript_view()),
{
    let l = vbscript_view();
    lemma_newline_free(seq![82u8, 69u8, 77u8]);
    lemma_newline_free(seq![39u8]);
    assert forall|i: int| 0 <= i < l.regions.len() implies (#[trigger] l.regions[i]).kind is Child
        || plain_region(l.regions[i]) by {
        assert(i == 0 || i == 1);
    }
    assert forall|k: int| 0 <= k < l.interest_bytes.len() implies is_non_ws(#[trigger] l.interest_bytes[k]) by {
        assert(k == 0 || k == 1 || k == 2);
    }
    assert(l.interest_bytes[0] == 10u8);
}

proof fn lemma_lines_vhdl()
    ensures
        line_language(vhdl_view()),
{
    let l = vhdl_view();
    lemma_newline_free(seq![45u8, 45u8]);
    assert forall|i: int| 0 <= i < l.regions.len() implies (#[trigger] l.regions[i]).kind is Child
        || plain_region(l.regions[i]) by {
        assert(i == 0);
    }
    assert forall|k: int| 0 <= k < l.interest_bytes.len() implies is_non_ws(#[trigger] l.interest_bytes[k]) by {
        assert(k == 0 || k == 1);
    }
    assert(l.interest_bytes[0] == 10u8);
}

proof fn lemma_lines_vala()
    ensures
        line_language(vala_view()),
{
    let l = vala_view();
    lemma_newline_free(seq![47u8, 47u8]);
    lemma_newline_free(seq![47u8, 42u8]);
    lemma_newline_free(seq![42u8, 47u8]);
    lemma_newline_free(seq![34u8]);
    assert forall|i: int| 0 <= i < l.regions.len() implies (#[trigger] l.regions[i]).kind is Child
        || plain_region(l.regions[i]) by {
        assert(i == 0 || i == 1 || i == 2);
    }
    assert forall|k: int| 0 <= k < l.interest_bytes.len() implies is_non_ws(#[trigger] l.interest_bytes[k]) by {
        assert(k == 0 || k == 1 || k == 2);
    }
    assert(l.interest_bytes[0] == 10u8);
}

proof fn lemma_lines_verilog()
    ensures
        line_language(verilog_view()),
{
    let l = verilog_view();
    lemma_newline_free(seq![47u8, 47u8]);
    lemma_newline_free(seq![47u8, 42u8]);
    lemma_newline_free(seq![42u8, 47u8]);
    lemma_newline_free(seq![34u8]);
    assert forall|i: int| 0 <= i < l.regions.len() implies (#[trigger] l.regions[i]).kind is Child
        || plain_region(l.regions[i]) by {
        assert(i == 0 || i == 1 || i == 2);
    }
    assert forall|k: int| 0 <= k < l.interest_bytes.len() implies is_non_ws(#[trigger] l.interest_bytes[k]) by {
        assert(k == 0 || k == 1 || k == 2);
    }
    assert(l.interest_bytes[0] == 10u8);
}

proof fn lemma_lines_verilog_args_file()
    ensures
        line_language(verilog_args_file_view()),
{
    let l = verilog_args_file_view();
    assert forall|k: int| 0 <= k < l.interest_bytes.len() implies is_non_ws(#[trigger] l.interest_bytes[k]) by {
        assert(k == 0);
    }
    assert(l.interest_bytes[0] == 10u8);
}

proof fn lemma_lines_vim_script()
    ensures
        line_language(vim_script_view()),
{
    let l = vim_script_view();
    lemma_newline_free(seq![34u8]);
    lemma_newline_free(seq![39u8]);
    assert forall|i: int| 0 <= i < l.regions.len() implies (#[trigger] l.regions[i]).kind is Child
        || plain_region(l.regions[i]) by {
        assert(i == 0 || i == 1);
    }
    assert forall|k: int| 0 <= k < l.interest_bytes.len() implies is_non_ws(#[trigger] l.interest_bytes[k]) by {
        assert(k == 0 || k == 1 || k == 2);
    }
    assert(l.interest_bytes[0] == 10u8);
}

proof fn lemma_lines_visual_basic()
    ensures
        line_language(visual_basic_view()),
{
    let l = visual_basic_view();
    lemma_newline_free(seq![39u8]);
    lemma_newline_free(seq![34u8]);
    assert forall|i: int| 0 <= i < l.regions.len() implies (#[trigger] l.regions[i]).kind is Child
        || plain_region(l.regions[i]) by {
        assert(i == 0 || i == 1);
    }
    assert forall|k: int| 0 <= k < l.interest_bytes.len() implies is_non_ws(#[trigger] l.interest_bytes[k]) by {
        assert(k == 0 || k == 1 || k == 2);
    }
    assert(l.interest_bytes[0] == 10u8);
}

proof fn lemma_lines_visual_studio_project()
    ensures
        line_language(visual_studio_project_view()),
{
    let l = visual_studio_project_view();
    lemma_newline_free(seq![60u8, 33u8, 45u8, 45u8]);
    lemma_newline_free(seq![45u8, 45u8, 62u8]);
    lemma_newline_free(seq![34u8]);
    lemma_newline_free(seq![39u8]);
    assert forall|i: int| 0 <= i < l.regions.len() implies (#[trigger] l.regions[i]).kind is Child
        || plain_region(l.regions[i]) by {
        assert(i == 0 || i == 1 || i == 2);
    }
    assert forall|k: int| 0 <= k < l.interest_bytes.len() implies is_non_ws(#[trigger] l.interest_bytes[k]) by {
        assert(k == 0 || k == 1 || k == 2 || k == 3);
    }
    assert(l.interest_bytes[0] == 10u8);
}

proof fn lemma_lines_visual_studio_solution()
    ensures
        line_language(visual_studio_solution_view()),
{
    let l = visual_studio_solution_view();
    assert forall|k: int| 0 <= k < l.interest_bytes.len() implies is_non_ws(#[trigger] l.interest_bytes[k]) by {
        assert(k == 0);
    }
    assert(l.interest_bytes[0] == 10u8);
}

proof fn lemma_lines_vue()
    ensures
        line_language(vue_view()),
{
    let l = vue_view();
    lemma_newline_free(seq![60u8, 33u8, 45u8, 45u8]);
    lemma_newline_free(seq![45u8, 45u8, 62u8]);
    lemma_newline_free(seq![47u8, 47u8]);
    lemma_newline_free(seq![47u8, 42u8]);
    lemma_newline_free(seq![42u8, 47u8]);
    lemma_newline_free(seq![34u8]);
    lemma_newline_free(seq![39u8]);
    lemma_newline_free(seq![96u8]);
    assert forall|i: int| 0 <= i < l.regions.len() implies (#[trigger] l.regions[i]).kind is Child
        || plain_region(l.regions[i]) by {
        assert(i == 0 || i == 1 || i == 2 || i == 3 || i == 4 || i == 5);
    }
    assert forall|k: int| 0 <= k < l.interest_bytes.len() implies is_non_ws(#[trigger] l.interest_bytes[k]) by {
        assert(k == 0 || k == 1 || k == 2 || k == 3 || k == 4 || k == 5);
    }
    assert(l.interest_bytes[0] == 10u8);
}

proof fn lemma_lines_webassembly()
    ensures
        line_language(webassembly_view()),
{
    let l = webassembly_view();
    lemma_newline_free(seq![59u8, 59u8]);
    lemma_newline_free(seq![34u8]);
    lemma_newline_free(seq![39u8]);
    assert forall|i: int| 0 <= i < l.regions.len() implies (#[trigger] l.regions[i]).kind is Child
        || plain_region(l.regions[i]) by {
        assert(i == 0 || i == 1 || i == 2);
    }
    assert forall|k: int| 0 <= k < l.interest_bytes.len() implies is_non_ws(#[trigger] l.interest_bytes[k]) by {
        assert(k == 0 || k == 1 || k == 2 || k == 3);
    }
    assert(l.interest_bytes[0] == 10u8);
}

proof fn lemma_lines_wolfram()
    ensures
        line_language(wolfram_view()),
{
    let l = wolfram_view();
    lemma_newline_free(seq![40u8, 42u8]);
    lemma_newline_free(seq![42u8, 41u8]);
    lemma_newline_free(seq![34u8]);
    assert forall|i: int| 0 <= i < l.regions.len() implies (#[trigger] l.regions[i]).kind is Child
        || plain_region(l.regions[i]) by {
        assert(i == 0 || i == 1);
    }
    assert forall|k: int| 0 <= k < l.interest_bytes.len() implies is_non_ws(#[trigger] l.interest_bytes[k]) by {
        assert(k == 0 || k == 1 || k == 2);
    }
    assert(l.interest_bytes[0] == 10u8);
}

proof fn lemma_lines_xaml()
    ensures
        line_language(xaml_view()),
{
    let l = xaml_view();
    lemma_newline_free(seq![60u8, 33u8, 45u8, 45u8]);
    lemma_newline_free(seq![45u8, 45u8, 62u8]);
    lemma_newline_free(seq![34u8]);
    lemma_newline_free(seq![39u8]);
    assert forall|i: int| 0 <= i < l.regions.len() implies (#[trigger] l.regions[i]).kind is Child
        || plain_region(l.regions[i]) by {
        assert(i == 0 || i == 1 || i == 2);
    }
    assert forall|k: int| 0 <= k < l.interest_bytes.len() implies is_non_ws(#[trigger] l.interest_bytes[k]) by {
        assert(k == 0 || k == 1 || k == 2 || k == 3);
    }
    assert(l.interest_bytes[0] == 10u8);
}

proof fn lemma_lines_xml()
    ensures
        line_language(xml_view()),
{
    let l = xml_view();
    lemma_newline_free(seq![60u8, 33u8, 45u8, 45u8]);
    lemma_newline_free(seq![45u8, 45u8, 62u8]);
    lemma_newline_free(seq![34u8]);
    lemma_newline_free(seq![39u8]);
    assert forall|i: int| 0 <= i < l.regions.len() implies (#[trigger] l.regions[i]).kind is Child
        || plain_region(l.regions[i]) by {
        assert(i == 0 || i == 1 || i == 2);
    }
    assert forall|k: int| 0 <= k < l.interest_bytes.len() implies is_non_ws(#[trigger] l.interest_bytes[k]) by {
        assert(k == 0 || k == 1 || k == 2 || k == 3);
    }
    assert(l.interest_bytes[0] == 10u8);
}

proof fn lemma_lines_xsl()
    ensures
        line_language(xsl_view()),
{
    let l = xsl_view();
    lemma_newline_free(seq![60u8, 33u8, 45u8, 45u8]);
    lemma_newline_free(seq![45u8, 45u8, 62u8]);
    lemma_newline_free(seq![34u8]);
    lemma_newline_free(seq![39u8]);
    assert forall|i: int| 0 <= i < l.regions.len() implies (#[trigger] l.regions[i]).kind is Child
        || plain_region(l.regions[i]) by {
        assert(i == 0 || i == 1 || i == 2);
    }
    assert forall|k: int| 0 <= k < l.interest_bytes.len() implies is_non_ws(#[trigger] l.interest_bytes[k]) by {
        assert(k == 0 || k == 1 || k == 2 || k == 3);
    }
    assert(l.interest_bytes[0] == 10u8);
}

proof fn lemma_lines_xcode_config()
    ensures
        line_language(xcode_config_view()),
{
    let l = xcode_config_view();
    lemma_newline_free(seq![47u8, 47u8]);
    lemma_newline_free(seq![34u8]);
    lemma_newline_free(seq![39u8]);
    assert forall|i: int| 0 <= i < l.regions.len() implies (#[trigger] l.regions[i]).kind is Child
        || plain_region(l.regions[i]) by {
        assert(i == 0 || i == 1 || i == 2);
    }
    assert forall|k: int| 0 <= k < l.interest_bytes.len() implies is_non_ws(#[trigger] l.interest_bytes[k]) by {
        assert(k == 0 || k == 1 || k == 2 || k == 3);
    }
    assert(l.interest_bytes[0] == 10u8);
}

proof fn lemma_lines_xtend()
    ensures
        line_language(xtend_view()),
{
    let l = xtend_view();
    lemma_newline_free(seq![39u8, 39u8, 39u8]);
    lemma_newline_free(seq![47u8, 47u8]);
    lemma_newline_free(seq![47u8, 42u8]);
    lemma_newline_free(seq![42u8, 47u8]);
    lemma_newline_free(seq![34u8]);
    lemma_newline_free(seq![39u8]);
    assert forall|i: int| 0 <= i < l.regions.len() implies (#[trigger] l.regions[i]).kind is Child
        || plain_region(l.regions[i]) by {
        assert(i == 0 || i == 1 || i == 2 || i == 3 || i == 4);
    }
    assert forall|k: int| 0 <= k < l.interest_bytes.len() implies is_non_ws(#[trigger] l.interest_bytes[k]) by {
        assert(k == 0 || k == 1 || k == 2 || k == 3);
    }
    assert(l.interest_bytes[0] == 10u8);
}

proof fn lemma_lines_yaml()
    ensures
        line_language(yaml_view()),
{
    let l = yaml_view();
    lemma_newline_free(seq![35u8]);
    lemma_newline_free(seq![34u8]);
    lemma_newline_free(seq![39u8]);
    assert forall|i: int| 0 <= i < l.regions.len() implies (#[trigger] l.regions[i]).kind is Child
        || plain_region(l.regions[i]) by {
        assert(i == 0 || i == 1 || i == 2);
    }
    assert forall|k: int| 0 <= k < l.interest_bytes.len() implies is_non_ws(#[trigger] l.interest_bytes[k]) by {
        assert(k == 0 || k == 1 || k == 2 || k == 3);
    }
    assert(l.interest_bytes[0] == 10u8);
}

proof fn lemma_lines_zig()
    ensures
        line_language(zig_view()),
{
    let l = zig_view();
    lemma_newline_free(seq![47u8, 47u8]);
    lemma_newline_free(seq![34u8]);
    assert forall|i: int| 0 <= i < l.regions.len() implies (#[trigger] l.regions[i]).kind is Child
        || plain_region(l.regions[i]) by {
        assert(i == 0 || i == 1);
    }
    assert forall|k: int| 0 <= k < l.interest_bytes.len() implies is_non_ws(#[trigger] l.interest_bytes[k]) by {
        assert(k == 0 || k == 1 || k == 2);
    }
    assert(l.interest_bytes[0] == 10u8);
}

proof fn lemma_lines_zsh()
    ensures
        line_language(zsh_view()),
{
    let l = zsh_view();
    lemma_newline_free(seq![35u8]);
    lemma_newline_free(seq![34u8]);
    lemma_newline_free(seq![39u8]);
    assert forall|i: int| 0 <= i < l.regions.len() implies (#[trigger] l.regions[i]).kind is Child
        || plain_region(l.regions[i]) by {
        assert(i == 0 || i == 1 || i == 2);
    }
    assert forall|k: int| 0 <= k < l.interest_bytes.len() implies is_non_ws(#[trigger] l.interest_bytes[k]) by {
        assert(k == 0 || k == 1 || k == 2 || k == 3);
    }
    assert(l.interest_bytes[0] == 10u8);
}

proof fn lemma_lines_part_0(id: int)
    requires
        0 <= id < 32,
        id != JUPYTER_NOTEBOOKS,
    ensures
        line_language(language_view(id)),
{
    reveal(language_view);
    if id == 0 {
        lemma_lines_dotnet_resource();
    } else if id == 1 {
        lemma_lines_abap();
    } else if id == 2 {
        lemma_lines_abnf();
    } else if id == 3 {
        lemma_lines_asn_1();
    } else if id == 4 {
        lemma_lines_asp();
    } else if id == 5 {
        lemma_lines_asp_net();
    } else if id == 6 {
        lemma_lines_actionscript();
    } else if id == 7 {
        lemma_lines_ada();
    } else if id == 8 {
        lemma_lines_agda();
    } else if id == 9 {
        lemma_lines_alex();
    } else if id == 10 {
        lemma_lines_alloy();
    } else if id == 11 {
        lemma_lines_apache_velocity();
    } else if id == 12 {
        lemma_lines_arduino_cpp();
    } else if id == 13 {
        lemma_lines_asciidoc();
    } else if id == 14 {
        lemma_lines_assembly();
    } else if id == 15 {
        lemma_lines_autohotkey();
    } else if id == 16 {
        lemma_lines_autoconf();
    } else if id == 17 {
        lemma_lines_automake();
    } else if id == 18 {
        lemma_lines_bash();
    } else if id == 19 {
        lemma_lines_batch();
    } else if id == 20 {
        lemma_lines_bean();
    } else if id == 21 {
        lemma_lines_brightscript();
    } else if id == 22 {
        lemma_lines_c();
    } else if id == 23 {
        lemma_lines_c_header();
    } else if id == 24 {
        lemma_lines_c_shell();
    } else if id == 25 {
        lemma_lines_csharp();
    } else if id == 26 {
        lemma_lines_cpp();
    } else if id == 27 {
        lemma_lines_cpp_header();
    } else if id == 28 {
        lemma_lines_cmake();
    } else if id == 29 {
        lemma_lines_cobol();
    } else if id == 30 {
        lemma_lines_css();
    } else if id == 31 {
        lemma_lines_cabal();
    }
}

proof fn lemma_lines_part_1(id: int)
    requires
        32 <= id < 64,
        id != JUPYTER_NOTEBOOKS,
    ensures
        line_language(language_view(id)),
{
    reveal(language_view);
    if id == 32 {
        lemma_lines_cassius();
    } else if id == 33 {
        lemma_lines_ceylon();
    } else if id == 34 {
        lemma_lines_clojure();
    } else if id == 35 {
        lemma_lines_clojurec();
    } else if id == 36 {
        lemma_lines_clojurescript();
    } else if id == 37 {
        lemma_lines_codeql();
    } else if id == 38 {
        lemma_lines_coffeescript();
    } else if id == 39 {
        lemma_lines_cogent();
    } else if id == 40 {
        lemma_lines_coldfusion();
    } else if id == 41 {
        lemma_lines_coldfusion_cfscript();
    } else if id == 42 {
        lemma_lines_coq();
    } else if id == 43 {
        lemma_lines_crystal();
    } else if id == 44 {
        lemma_lines_d();
    } else if id == 45 {
        lemma_lines_daml();
    } else if id == 46 {
        lemma_lines_dart();
    } else if id == 47 {
        lemma_lines_device_tree();
    } else if id == 48 {
        lemma_lines_dhall();
    } else if id == 49 {
        lemma_lines_dockerfile();
    } else if id == 50 {
        lemma_lines_dream_maker();
    } else if id == 51 {
        lemma_lines_dust_js();
    } else if id == 52 {
        lemma_lines_edn();
    } else if id == 53 {
        lemma_lines_elixir();
    } else if id == 54 {
        lemma_lines_elm();
    } else if id == 55 {
        lemma_lines_elvish();
    } else if id == 56 {
        lemma_lines_emacs_dev_env();
    } else if id == 57 {
        lemma_lines_emacs_lisp();
    } else if id == 58 {
        lemma_lines_emojicode();
    } else if id == 59 {
        lemma_lines_erlang();
    } else if id == 60 {
        lemma_lines_fsharp();
    } else if id == 61 {
        lemma_lines_f();
    } else if id == 62 {
        lemma_lines_fen();
    } else if id == 63 {
        lemma_lines_fortran_legacy();
    }
}

proof fn lemma_lines_part_2(id: int)
    requires
        64 <= id < 96,
        id != JUPYTER_NOTEBOOKS,
    ensures
        line_language(language_view(id)),
{
    reveal(language_view);
    if id == 64 {
        lemma_lines_fortran_modern();
    } else if id == 65 {
        lemma_lines_fish();
    } else if id == 66 {
        lemma_lines_flatbuffers_schema();
    } else if id == 67 {
        lemma_lines_forth();
    } else if id == 68 {
        lemma_lines_freemarker();
    } else if id == 69 {
        lemma_lines_futhark();
    } else if id == 70 {
        lemma_lines_gdb_script();
    } else if id == 71 {
        lemma_lines_gdscript();
    } else if id == 72 {
        lemma_lines_glsl();
    } else if id == 73 {
        lemma_lines_gnu_style_assembly();
    } else if id == 74 {
        lemma_lines_gherkin_cucumber();
    } else if id == 75 {
        lemma_lines_gleam();
    } else if id == 76 {
        lemma_lines_go();
    } else if id == 77 {
        lemma_lines_go_html();
    } else if id == 78 {
        lemma_lines_graphql();
    } else if id == 79 {
        lemma_lines_groovy();
    } else if id == 80 {
        lemma_lines_gwion();
    } else if id == 81 {
        lemma_lines_hcl();
    } else if id == 82 {
        lemma_lines_hex();
    } else if id == 83 {
        lemma_lines_hlsl();
    } else if id == 84 {
        lemma_lines_html();
    } else if id == 85 {
        lemma_lines_hamlet();
    } else if id == 86 {
        lemma_lines_handlebars();
    } else if id == 87 {
        lemma_lines_happy();
    } else if id == 88 {
        lemma_lines_haskell();
    } else if id == 89 {
        lemma_lines_haxe();
    } else if id == 90 {
        lemma_lines_headache();
    } else if id == 91 {
        lemma_lines_holyc();
    } else if id == 92 {
        lemma_lines_ini();
    } else if id == 93 {
        lemma_lines_idris();
    } else if id == 94 {
        lemma_lines_intel_hex();
    } else if id == 95 {
        lemma_lines_isabelle();
    }
}

proof fn lemma_lines_part_3(id: int)
    requires
        96 <= id < 128,
        id != JUPYTER_NOTEBOOKS,
    ensures
        line_language(language_view(id)),
{
    reveal(language_view);
    if id == 96 {
        lemma_lines_jai();
    } else if id == 97 {
        lemma_lines_json();
    } else if id == 98 {
        lemma_lines_jsx();
    } else if id == 99 {
        lemma_lines_java();
    } else if id == 100 {
        lemma_lines_javascript();
    } else if id == 101 {
        lemma_lines_jsonnet();
    } else if id == 102 {
        lemma_lines_julia();
    } else if id == 103 {
        lemma_lines_julius();
    } else if id == 105 {
        lemma_lines_k();
    } else if id == 106 {
        lemma_lines_kakoune_script();
    } else if id == 107 {
        lemma_lines_kotlin();
    } else if id == 108 {
        lemma_lines_ld_script();
    } else if id == 109 {
        lemma_lines_less();
    } else if id == 110 {
        lemma_lines_llvm();
    } else if id == 111 {
        lemma_lines_lean();
    } else if id == 112 {
        lemma_lines_liquid();
    } else if id == 113 {
        lemma_lines_lisp();
    } else if id == 114 {
        lemma_lines_livescript();
    } else if id == 115 {
        lemma_lines_logtalk();
    } else if id == 116 {
        lemma_lines_lua();
    } else if id == 117 {
        lemma_lines_lucius();
    } else if id == 118 {
        lemma_lines_msbuild();
    } else if id == 119 {
        lemma_lines_madlang();
    } else if id == 120 {
        lemma_lines_makefile();
    } else if id == 121 {
        lemma_lines_markdown();
    } else if id == 122 {
        lemma_lines_meson();
    } else if id == 123 {
        lemma_lines_mint();
    } else if id == 124 {
        lemma_lines_module_definition();
    } else if id == 125 {
        lemma_lines_moonscript();
    } else if id == 126 {
        lemma_lines_mustache();
    } else if id == 127 {
        lemma_lines_nim();
    }
}

proof fn lemma_lines_part_4(id: int)
    requires
        128 <= id < 160,
        id != JUPYTER_NOTEBOOKS,
    ensures
        line_language(language_view(id)),
{
    reveal(language_view);
    if id == 128 {
        lemma_lines_nix();
    } else if id == 129 {
        lemma_lines_not_quite_perl();
    } else if id == 130 {
        lemma_lines_ocaml();
    } else if id == 131 {
        lemma_lines_objective_c();
    } else if id == 132 {
        lemma_lines_objective_cpp();
    } else if id == 133 {
        lemma_lines_odin();
    } else if id == 134 {
        lemma_lines_opentype_feature_file();
    } else if id == 135 {
        lemma_lines_org();
    } else if id == 136 {
        lemma_lines_oz();
    } else if id == 137 {
        lemma_lines_php();
    } else if id == 138 {
        lemma_lines_psl_assertion();
    } else if id == 139 {
        lemma_lines_pan();
    } else if id == 140 {
        lemma_lines_pascal();
    } else if id == 141 {
        lemma_lines_perl();
    } else if id == 142 {
        lemma_lines_pest();
    } else if id == 143 {
        lemma_lines_plain_text();
    } else if id == 144 {
        lemma_lines_polly();
    } else if id == 145 {
        lemma_lines_pony();
    } else if id == 146 {
        lemma_lines_postcss();
    } else if id == 147 {
        lemma_lines_powershell();
    } else if id == 148 {
        lemma_lines_processing();
    } else if id == 149 {
        lemma_lines_prolog();
    } else if id == 150 {
        lemma_lines_protocol_buffers();
    } else if id == 151 {
        lemma_lines_pug();
    } else if id == 152 {
        lemma_lines_purescript();
    } else if id == 153 {
        lemma_lines_python();
    } else if id == 154 {
        lemma_lines_q();
    } else if id == 155 {
        lemma_lines_qcl();
    } else if id == 156 {
        lemma_lines_qml();
    } else if id == 157 {
        lemma_lines_r();
    } else if id == 158 {
        lemma_lines_rpm_specfile();
    } else if id == 159 {
        lemma_lines_racket();
    }
}

proof fn lemma_lines_part_5(id: int)
    requires
        160 <= id < 192,
        id != JUPYTER_NOTEBOOKS,
    ensures
        line_language(language_view(id)),
{
    reveal(language_view);
    if id == 160 {
        lemma_lines_rakefile();
    } else if id == 161 {
        lemma_lines_rakudo();
    } else if id == 162 {
        lemma_lines_razor();
    } else if id == 163 {
        lemma_lines_restructuredtext();
    } else if id == 164 {
        lemma_lines_ren_py();
    } else if id == 165 {
        lemma_lines_ruby();
    } else if id == 166 {
        lemma_lines_ruby_html();
    } else if id == 167 {
        lemma_lines_rust();
    } else if id == 168 {
        lemma_lines_rusty_object_notation();
    } else if id == 169 {
        lemma_lines_sql();
    } else if id == 170 {
        lemma_lines_srecode_template();
    } else if id == 171 {
        lemma_lines_svg();
    } else if id == 172 {
        lemma_lines_swig();
    } else if id == 173 {
        lemma_lines_sass();
    } else if id == 174 {
        lemma_lines_scala();
    } else if id == 175 {
        lemma_lines_scheme();
    } else if id == 176 {
        lemma_lines_scons();
    } else if id == 177 {
        lemma_lines_shell();
    } else if id == 178 {
        lemma_lines_solidity();
    } else if id == 179 {
        lemma_lines_specman_e();
    } else if id == 180 {
        lemma_lines_spice_netlist();
    } else if id == 181 {
        lemma_lines_stan();
    } else if id == 182 {
        lemma_lines_standard_ml_sml();
    } else if id == 183 {
        lemma_lines_stratego_xt();
    } else if id == 184 {
        lemma_lines_stylus();
    } else if id == 185 {
        lemma_lines_svelte();
    } else if id == 186 {
        lemma_lines_swift();
    } else if id == 187 {
        lemma_lines_systemverilog();
    } else if id == 188 {
        lemma_lines_tcl();
    } else if id == 189 {
        lemma_lines_toml();
    } else if id == 190 {
        lemma_lines_tsx();
    } else if id == 191 {
        lemma_lines_ttcn_3();
    }
}

proof fn lemma_lines_part_6(id: int)
    requires
        192 <= id < 224,
        id != JUPYTER_NOTEBOOKS,
    ensures
        line_language(language_view(id)),
{
    reveal(language_view);
    if id == 192 {
        lemma_lines_tex();
    } else if id == 193 {
        lemma_lines_tera();
    } else if id == 194 {
        lemma_lines_thrift();
    } else if id == 195 {
        lemma_lines_twig();
    } else if id == 196 {
        lemma_lines_typescript();
    } else if id == 197 {
        lemma_lines_unreal_markdown();
    } else if id == 198 {
        lemma_lines_unreal_plugin();
    } else if id == 199 {
        lemma_lines_unreal_project();
    } else if id == 200 {
        lemma_lines_unreal_script();
    } else if id == 201 {
        lemma_lines_unreal_shader();
    } else if id == 202 {
        lemma_lines_unreal_shader_header();
    } else if id == 203 {
        lemma_lines_ur_web();
    } else if id == 204 {
        lemma_lines_ur_web_project();
    } else if id == 205 {
        lemma_lines_vb6();
    } else if id == 206 {
        lemma_lines_vbscript();
    } else if id == 207 {
        lemma_lines_vhdl();
    } else if id == 208 {
        lemma_lines_vala();
    } else if id == 209 {
        lemma_lines_verilog();
    } else if id == 210 {
        lemma_lines_verilog_args_file();
    } else if id == 211 {
        lemma_lines_vim_script();
    } else if id == 212 {
        lemma_lines_visual_basic();
    } else if id == 213 {
        lemma_lines_visual_studio_project();
    } else if id == 214 {
        lemma_lines_visual_studio_solution();
    } else if id == 215 {
        lemma_lines_vue();
    } else if id == 216 {
        lemma_lines_webassembly();
    } else if id == 217 {
        lemma_lines_wolfram();
    } else if id == 218 {
        lemma_lines_xaml();
    } else if id == 219 {
        lemma_lines_xml();
    } else if id == 220 {
        lemma_lines_xsl();
    } else if id == 221 {
        lemma_lines_xcode_config();
    } else if id == 222 {
        lemma_lines_xtend();
    } else if id == 223 {
        lemma_lines_yaml();
    }
}

proof fn lemma_lines_part_7(id: int)
    requires
        224 <= id < 226,
        id != JUPYTER_NOTEBOOKS,
    ensures
        line_language(language_view(id)),
{
    reveal(language_view);
    if id == 224 {
        lemma_lines_zig();
    } else if id == 225 {
        lemma_lines_zsh();
    }
}

/// The languages of the library other than Jupyter Notebooks are line
/// languages, and those without embedded languages or documentation blocks
/// count each line of every file once.
pub proof fn lemma_registry_lines(id: int)
    requires
        0 <= id < LANGUAGE_COUNT,
        id != JUPYTER_NOTEBOOKS,
    ensures
        line_language(language_view(id)),
        (forall|i: int| 0 <= i < language_view(id).regions.len() ==> !(#[trigger] language_view(id).regions[i].kind is Child))
            && language_view(id).leading_doc_prefixes.len() == 0 ==> forall|content: Seq<u8>|
            #[trigger] counts_each_line(content, language_view(id)),
{
    if 0 <= id < 32 {
        lemma_lines_part_0(id);
    }
    if 32 <= id < 64 {
        lemma_lines_part_1(id);
    }
    if 64 <= id < 96 {
        lemma_lines_part_2(id);
    }
    if 96 <= id < 128 {
        lemma_lines_part_3(id);
    }
    if 128 <= id < 160 {
        lemma_lines_part_4(id);
    }
    if 160 <= id < 192 {
        lemma_lines_part_5(id);
    }
    if 192 <= id < 224 {
        lemma_lines_part_6(id);
    }
    if 224 <= id < 226 {
        lemma_lines_part_7(id);
    }
    let l = language_view(id);
    if (forall|i: int| 0 <= i < l.regions.len() ==> !(#[trigger] l.regions[i].kind is Child)) && l.leading_doc_prefixes.len() == 0 {
        assert forall|content: Seq<u8>| #[trigger] counts_each_line(content, l) by {
            lemma_plain_counts_each_line(content, l);
        }
    }
}

} // verus!
