use std::collections::HashSet;
use varcavia::crawler::extract::{contains_number_with_unit, extract_facts_from_html, first_sentence};
use varcavia::crawler::facts::{dedup_facts, fallback_facts, get_seed_facts, hardcoded_facts, is_seed_text, wiki_pages};
use varcavia::crawler::extract::ExtractedFact;
use varcavia::crawler::frontier::{SemanticSpider, MAX_SEED_DEPTH};
use varcavia::crawler::html::strip_html;
use varcavia::crawler::spider::{extract_concepts, extract_subject, initial_seeds, summary_facts, try_extract_subject, Seed};
use varcavia::crawler::wikidata::property_fact;
use varcavia::crawler::wikidata::person_fact;

#[test]
fn test_strip_html() {
    assert_eq!(strip_html("<p>Hello <b>world</b></p>"), "Hello world");
    assert_eq!(strip_html("no tags"), "no tags");
    assert_eq!(strip_html("<script>var x=1;</script>text"), "text");
    assert_eq!(strip_html("a &amp; b"), "a & b");
}

#[test]
fn strip_html_entities_and_styles() {
    assert_eq!(strip_html("&lt;tag&gt; &quot;q&quot;"), "<tag> \"q\"");
    assert_eq!(strip_html("x&#8212;y"), "xy");
    assert_eq!(strip_html("a &#no semicolon here"), "a &#no semicolon here");
    assert_eq!(strip_html("<STYLE>p{}</STYLE>shown"), "shown");
    assert_eq!(strip_html(""), "");
}

#[test]
fn test_contains_number_with_unit() {
    assert!(contains_number_with_unit("Earth has a radius of 6371 km"));
    assert!(contains_number_with_unit("about 21 percent oxygen"));
    assert!(!contains_number_with_unit("hello world"));
    assert!(!contains_number_with_unit("the number 42"));
}

#[test]
fn units_are_found_case_insensitively() {
    assert!(contains_number_with_unit("It weighs 5 KG"));
    assert!(!contains_number_with_unit("KG without digits"));
}

#[test]
fn test_first_sentence() {
    assert_eq!(first_sentence("Hello world. More text here."), "Hello world. More text here.");
    assert_eq!(first_sentence("Short"), "Short");
    assert_eq!(
        first_sentence("A sentence with enough characters to pass the minimum. And more."),
        "A sentence with enough characters to pass the minimum."
    );
}

#[test]
fn first_sentence_cut_rules() {
    assert_eq!(first_sentence("The value is 3.14 and more text"), "The value is 3.14 and more text");
    assert_eq!(first_sentence("Sixteen bytes ok.\nnext"), "Sixteen bytes ok.");
}

#[test]
fn test_extract_facts_from_html() {
    let html = "<p>Earth is the third planet from the Sun and the only known planet to harbor life. It has a radius of 6371 km and orbits at 149.6 million km from the Sun.</p>";
    let facts = extract_facts_from_html(html, "science", "Earth");
    assert!(!facts.is_empty());
    assert_eq!(facts[0].domain, "science");
}

#[test]
fn extracted_facts_are_first_sentences_with_source() {
    let html = "<p>Earth is the third planet from the Sun and the only known planet to harbor life. It has a radius.</p>\n<p>[1] Retrieved is a reference line of enough length</p>\n<p>Mars is the fourth planet from the Sun in the solar system.</p>";
    let facts = extract_facts_from_html(html, "science", "Earth");
    assert_eq!(facts.len(), 2);
    assert_eq!(facts[0].text, "Earth is the third planet from the Sun and the only known planet to harbor life.");
    assert_eq!(facts[0].source, "wikipedia:Earth");
    assert_eq!(facts[1].text, "Mars is the fourth planet from the Sun in the solar system.");
}

#[test]
fn at_most_ten_distinct_facts_are_extracted() {
    let mut html = String::new();
    for i in 0..15 {
        html.push_str(&format!("Planet number {i} is a body that orbits a star somewhere.\n"));
    }
    html.push_str("Planet number 0 is a body that orbits a star somewhere.\n");
    let facts = extract_facts_from_html(&html, "science", "P");
    assert_eq!(facts.len(), 10);
    let texts: HashSet<_> = facts.iter().map(|f| f.text.clone()).collect();
    assert_eq!(texts.len(), 10);
}

#[test]
fn test_fallback_facts() {
    let facts = fallback_facts("Earth", "science");
    assert!(facts.len() >= 5);
    assert!(facts[0].text.contains("Earth"));
    let facts = fallback_facts("nonexistent", "test");
    assert!(facts.is_empty());
}

#[test]
fn test_hardcoded_facts() {
    let facts = hardcoded_facts();
    assert!(facts.len() >= 400, "Expected 400+ hardcoded facts, got {}", facts.len());
    let domains: HashSet<_> = facts.iter().map(|f| f.domain.as_str()).collect();
    assert!(domains.contains("science"));
    assert!(domains.contains("geography"));
    assert!(domains.contains("health"));
}

#[test]
fn test_fallback_all_pages() {
    for (page, domain) in wiki_pages() {
        let facts = fallback_facts(&page, &domain);
        assert!(facts.len() >= 4, "Page {page} has only {} fallback facts", facts.len());
    }
}

#[test]
fn seed_facts_have_no_repeated_text() {
    let seeds = get_seed_facts();
    let texts: HashSet<_> = seeds.iter().map(|(t, _)| t.clone()).collect();
    assert_eq!(texts.len(), seeds.len());
    assert_eq!(seeds[0].0, "Earth is the third planet from the Sun and the only astronomical object known to harbor life.");
    assert_eq!(seeds[0].1, "science");
    assert!(seeds.len() > 400);
}

#[test]
fn test_extract_concepts_basic() {
    let concepts = extract_concepts("DNA was discovered by Watson and Crick in 1953");
    assert!(concepts.iter().any(|c| c.contains("Watson")));
    assert!(concepts.iter().any(|c| c.contains("Crick")));
}

#[test]
fn test_extract_concepts_skips_articles() {
    let concepts = extract_concepts("The United Nations was founded in San Francisco");
    assert!(concepts.iter().any(|c| c.contains("United Nations")));
    assert!(concepts.iter().any(|c| c.contains("San Francisco")));
}

#[test]
fn test_extract_concepts_empty() {
    let concepts = extract_concepts("this has no proper nouns at all");
    assert!(concepts.is_empty());
}

#[test]
fn concepts_are_exact_runs_without_repeats() {
    let concepts = extract_concepts("The United Nations met; Then United Nations and New York agreed, with Paris.");
    assert_eq!(concepts, vec!["United Nations".to_string(), "New York".to_string(), "Paris".to_string()]);
}

#[test]
fn test_extract_subject_basic() {
    assert_eq!(extract_subject("Nigeria has a population of 223 million"), "Nigeria");
}

#[test]
fn test_extract_subject_the_prefix() {
    assert_eq!(extract_subject("The speed of light is 299792458 m/s"), "speed of light");
}

#[test]
fn test_extract_subject_fallback() {
    assert_eq!(extract_subject("Hello world today"), "Hello world today");
}

#[test]
fn subject_fallback_takes_three_words_and_checked_form_agrees() {
    assert_eq!(extract_subject("one two three four"), "one two three");
    assert_eq!(try_extract_subject("The The Moon is round"), Some("Moon".to_string()));
    assert_eq!(extract_subject("  The is blue"), "The");
    assert_eq!(extract_subject("The  is blue sky"), "The is blue");
}

#[test]
fn initial_seed_table_is_complete() {
    let seeds = initial_seeds();
    assert_eq!(seeds.len(), 28);
    assert_eq!(seeds[0], ("Earth".to_string(), "geography".to_string()));
    assert_eq!(seeds[27], ("Water".to_string(), "science".to_string()));
}

#[test]
fn test_spider_creation() {
    let spider = SemanticSpider::new();
    assert_eq!(spider.stats.topics_crawled, 0);
}

#[test]
fn spider_frontier_is_first_in_first_out() {
    let mut spider = SemanticSpider::new();
    assert_eq!(spider.queue_size(), 28);
    let first = spider.next_seed().unwrap();
    assert_eq!((first.topic.as_str(), first.depth, first.domain.as_str()), ("Earth", 0, "geography"));
    assert_eq!(spider.queue_size(), 27);
    spider.add_seed(Seed { topic: "Mars".to_string(), depth: 3, domain: "science".to_string() });
    assert_eq!(spider.queue_size(), 28);
    spider.reseed();
    assert_eq!(spider.queue_size(), 56);
}

#[test]
fn spider_visits_topics_in_any_case() {
    let mut spider = SemanticSpider::new();
    assert!(!spider.is_visited("Earth"));
    spider.mark_visited("EARTH");
    assert!(spider.is_visited("earth"));
    assert!(spider.is_visited("Earth"));
    let seed = |topic: &str, depth: u32| Seed { topic: topic.to_string(), depth, domain: "x".to_string() };
    assert!(!spider.admits(&seed("earth", 0)));
    assert!(spider.admits(&seed("Moon", MAX_SEED_DEPTH)));
    assert!(!spider.admits(&seed("Moon", MAX_SEED_DEPTH + 1)));
}

#[test]
fn spider_keeps_new_long_enough_discoveries() {
    let mut spider = SemanticSpider::new();
    spider.mark_visited("Earth");
    while spider.next_seed().is_some() {}
    let found = vec![
        ("Mars".to_string(), "science".to_string()),
        ("ab".to_string(), "science".to_string()),
        ("EARTH".to_string(), "geography".to_string()),
        ("Jupiter".to_string(), "science".to_string()),
    ];
    spider.enqueue_discoveries(found, 2);
    assert_eq!(spider.queue_size(), 2);
    let a = spider.next_seed().unwrap();
    let b = spider.next_seed().unwrap();
    assert_eq!((a.topic.as_str(), a.depth, a.domain.as_str()), ("Mars", 3, "science"));
    assert_eq!((b.topic.as_str(), b.depth), ("Jupiter", 3));
    assert!(spider.next_seed().is_none());
}

#[test]
fn summary_sentences_are_statements_closed_by_a_period() {
    let extract = "Paris is the capital of France. Short one. It has 2 million people living within the city. Nothing here to see at all really";
    let facts = summary_facts(extract, "geography", "wikipedia:Paris");
    let texts: Vec<&str> = facts.iter().map(|f| f.text.as_str()).collect();
    assert_eq!(texts, vec!["Paris is the capital of France.", "It has 2 million people living within the city."]);
    assert!(facts.iter().all(|f| f.domain == "geography" && f.source == "wikipedia:Paris"));
}

#[test]
fn summary_stops_at_ten_facts() {
    let extract = (0..15).map(|i| format!("Sentence number {i} is a statement")).collect::<Vec<_>>().join(". ");
    let facts = summary_facts(&extract, "d", "s");
    assert_eq!(facts.len(), 10);
    assert_eq!(facts[9].text, "Sentence number 9 is a statement.");
    assert!(summary_facts("", "d", "s").is_empty());
}

#[test]
fn seed_texts_are_recognised() {
    let seeds = get_seed_facts();
    assert!(is_seed_text(&seeds, &seeds[0].0));
    assert!(!is_seed_text(&seeds, "The Moon is made of cheese."));
}

#[test]
fn dedup_keeps_the_first_fact_of_each_text() {
    let fact = |t: &str, d: &str| ExtractedFact { text: t.to_string(), domain: d.to_string(), source: "s".to_string() };
    let out = dedup_facts(vec![fact("a", "1"), fact("b", "2"), fact("a", "3"), fact("c", "4"), fact("b", "5")]);
    let got: Vec<(&str, &str)> = out.iter().map(|f| (f.text.as_str(), f.domain.as_str())).collect();
    assert_eq!(got, vec![("a", "1"), ("b", "2"), ("c", "4")]);
}

#[test]
fn property_facts_keep_readable_values() {
    assert_eq!(
        property_fact("Earth", "highest point", "Mount Everest", false),
        Some("The highest point of Earth is Mount Everest.".to_string())
    );
    assert_eq!(
        property_fact("Rome", "inception", "0753-04-21T00:00:00Z", false),
        Some("The inception of Rome is 0753.".to_string())
    );
    assert_eq!(property_fact("Rome", "population", "2873000", true), Some("The population of Rome is 2873000.".to_string()));
}

#[test]
fn property_facts_skip_noise() {
    assert_eq!(property_fact("Earth", "P31", "planet", false), None);
    assert_eq!(property_fact("Earth", "instance of", "Q2", false), None);
    assert_eq!(property_fact("Earth", "official website", "https://x.org", false), None);
    assert_eq!(property_fact("Earth", "ab", "value", false), None);
    assert_eq!(property_fact("Earth", "name", "x", false), None);
    assert_eq!(property_fact("Earth", "Commons Category", "Earth pictures", false), None);
    assert_eq!(property_fact("Earth", "image of", "picture", false), None);
    assert_eq!(property_fact("Earth", "mass", "5972", true), None);
    assert_eq!(property_fact("E", "abc", "de", false), None);
    let long = "v".repeat(300);
    assert_eq!(property_fact("Earth", "motto", &long, false), None);
}

#[test]
fn person_facts_by_what_is_known() {
    assert_eq!(
        person_fact("Ada Lovelace", Some("1815"), Some("1852"), Some("mathematician")),
        Some("Ada Lovelace was a mathematician who lived from 1815 to 1852.".to_string())
    );
    assert_eq!(
        person_fact("Jane Doe", Some("1970"), None, Some("writer")),
        Some("Jane Doe is a writer born in 1970.".to_string())
    );
    assert_eq!(
        person_fact("John Roe", Some("1900"), Some("1980"), Some("Q42")),
        Some("John Roe lived from 1900 to 1980.".to_string())
    );
    assert_eq!(person_fact("Nobody", None, Some("1980"), Some("writer")), None);
    assert_eq!(person_fact("Someone", Some("1990"), None, None), None);
}

#[test]
fn saved_frontier_comes_back_in_order() {
    let mut spider = SemanticSpider::new();
    spider.next_seed();
    let saved = spider.pending_seeds();
    assert_eq!(saved.len(), 27);
    let restored = SemanticSpider::from_pending(
        saved.iter().map(|(topic, depth, domain)| Seed { topic: topic.clone(), depth: *depth, domain: domain.clone() }).collect(),
    );
    assert_eq!(restored.pending_seeds(), saved);
    assert_eq!(restored.stats.topics_crawled, 0);
}
