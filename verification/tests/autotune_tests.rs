use hyprfinity::autotune::{detect_gpu_model, detect_span_pixels, detect_span_size, gpu_model_score};
use hyprfinity::hyprland::Monitor;

#[test]
fn gpu_model_score_ranks_discrete_over_integrated() {
    // Case folding matters: the patterns are matched on the lowercased name.
    let discrete = gpu_model_score("NVIDIA GeForce RTX 3060 [10de:2503]");
    assert_eq!(discrete, 50);
    let integrated = gpu_model_score("Intel UHD Graphics 620");
    assert_eq!(integrated, 10 - 8 - 6);
    assert!(discrete > integrated);
    assert_eq!(gpu_model_score("Matrox G200"), 0);
}

#[test]
fn gpu_model_score_knows_the_polaris_bonus() {
    // "rx 580" earns both the AMD score and the small bonus.
    assert_eq!(gpu_model_score("AMD Radeon RX 580"), 45 + 5);
    assert_eq!(gpu_model_score("Intel Arc A770"), 10 + 20);
}

#[test]
fn detect_gpu_model_takes_the_best_scoring_entry() {
    let models = vec![
        "Intel UHD Graphics".to_string(),
        "NVIDIA GeForce RTX 4090".to_string(),
        "Some Unknown Adapter".to_string(),
    ];
    assert_eq!(detect_gpu_model(&models).as_deref(), Some("NVIDIA GeForce RTX 4090"));
    assert_eq!(detect_gpu_model(&Vec::new()), None);
}

#[test]
fn detect_gpu_model_ties_go_to_the_last_entry() {
    let models = vec!["Radeon One".to_string(), "Radeon Two".to_string()];
    assert_eq!(detect_gpu_model(&models).as_deref(), Some("Radeon Two"));
}

#[test]
fn span_size_and_pixels_follow_the_monitors() {
    let monitors = vec![
        Monitor { name: None, width: 1920, height: 1080, x: -1920, y: 0 },
        Monitor { name: None, width: 2560, height: 1440, x: 0, y: 0 },
    ];
    assert_eq!(detect_span_size(&monitors), Some((4480, 1440)));
    assert_eq!(detect_span_pixels(&monitors), Some(4480 * 1440));
    assert_eq!(detect_span_size(&Vec::new()), None);
    assert_eq!(detect_span_pixels(&Vec::new()), None);
}
